use native_search::ledger::Resource;
use native_search::oledb::{
    CursorSearch, Event, SearchLocalFileError, Step, CATALOG, COLUMN_BUFFER_UNITS, MAX_RESULTS,
    PROVIDER, SELECT_COLUMNS, WHERE_RESTRICTIONS,
};

type Outcome = (
    Result<Vec<(String, String, String)>, SearchLocalFileError>,
    Option<SearchLocalFileError>,
);

/// A fake provider: `rows` holds the columns of each row; `fail` names a
/// step to fail, with the number of times it has to go well first.
struct Fake {
    rows: Vec<[&'static str; 3]>,
    fail: Option<(&'static str, usize)>,
    fetched: usize,
    held: Vec<Resource>,
    steps: Vec<String>,
}

fn buffer(text: &str) -> Vec<u16> {
    let mut b: Vec<u16> = text.encode_utf16().collect();
    b.resize(COLUMN_BUFFER_UNITS, 0);
    b
}

fn name(step: &Step) -> &'static str {
    match step {
        Step::InitializeOle => "InitializeOle",
        Step::OpenSearchManager => "OpenSearchManager",
        Step::OpenCatalog(_) => "OpenCatalog",
        Step::OpenQueryHelper => "OpenQueryHelper",
        Step::SetSelectColumns(_) => "SetSelectColumns",
        Step::SetWhereRestrictions(_) => "SetWhereRestrictions",
        Step::SetMaxResults(_) => "SetMaxResults",
        Step::GenerateSql(_) => "GenerateSql",
        Step::CreateDataInitializer => "CreateDataInitializer",
        Step::GetDataSource(_) => "GetDataSource",
        Step::CastDataSource => "CastDataSource",
        Step::CastSessionFactory => "CastSessionFactory",
        Step::CastCommandFactory => "CastCommandFactory",
        Step::CastCommandText => "CastCommandText",
        Step::InitializeDataSource => "InitializeDataSource",
        Step::CreateSession => "CreateSession",
        Step::CreateCommand => "CreateCommand",
        Step::SetCommandText(_) => "SetCommandText",
        Step::Execute => "Execute",
        Step::OpenAccessorInterface => "OpenAccessorInterface",
        Step::FetchRow => "FetchRow",
        Step::CreateAccessor(_) => "CreateAccessor",
        Step::GetData => "GetData",
        Step::Release(_) => "Release",
        Step::Finish => "Finish",
    }
}

fn acquired(step: &Step) -> Option<Resource> {
    match step {
        Step::InitializeOle => Some(Resource::OleRuntime),
        Step::OpenSearchManager => Some(Resource::SearchManager),
        Step::OpenCatalog(_) => Some(Resource::Catalog),
        Step::OpenQueryHelper => Some(Resource::QueryHelper),
        Step::CreateDataInitializer => Some(Resource::DataInitializer),
        Step::GetDataSource(_) => Some(Resource::DataSourceObject),
        Step::CastDataSource => Some(Resource::DataSource),
        Step::CastSessionFactory => Some(Resource::SessionFactory),
        Step::CreateSession => Some(Resource::Session),
        Step::CastCommandFactory => Some(Resource::CommandFactory),
        Step::CreateCommand => Some(Resource::CommandObject),
        Step::CastCommandText => Some(Resource::Command),
        Step::Execute => Some(Resource::Rowset),
        Step::OpenAccessorInterface => Some(Resource::AccessorInterface),
        Step::FetchRow => Some(Resource::Row),
        Step::CreateAccessor(_) => Some(Resource::Accessor),
        _ => None,
    }
}

impl Fake {
    fn new(rows: Vec<[&'static str; 3]>) -> Fake {
        Fake { rows, fail: None, fetched: 0, held: Vec::new(), steps: Vec::new() }
    }

    fn failing(mut self, step: &'static str, after: usize) -> Fake {
        self.fail = Some((step, after));
        self
    }

    fn answer(&mut self, step: &Step, column: &mut usize) -> Event {
        let n = name(step);
        self.steps.push(n.to_string());
        if let Some((f, after)) = self.fail {
            if f == n {
                if after == 0 {
                    self.fail = None;
                    // a release that fails still gives the handle up
                    if let Step::Release(k) = step {
                        assert_eq!(self.held.pop(), Some(*k));
                    }
                    return Event::Failed(format!("{n} failed"));
                }
                self.fail = Some((f, after - 1));
            }
        }
        match step {
            Step::GenerateSql(q) => {
                assert_eq!(q.last(), Some(&0));
                Event::Sql("SELECT System.FileName FROM SystemIndex".to_string())
            }
            Step::FetchRow => {
                if self.fetched == self.rows.len() {
                    return Event::Missing;
                }
                self.fetched += 1;
                self.held.push(Resource::Row);
                Event::Done
            }
            Step::CreateAccessor(ordinal) => {
                *column = *ordinal;
                self.held.push(Resource::Accessor);
                Event::Done
            }
            Step::GetData => Event::Data(buffer(self.rows[self.fetched - 1][*column - 1])),
            Step::Release(k) => {
                assert_eq!(self.held.pop(), Some(*k));
                Event::Done
            }
            other => {
                if let Some(k) = acquired(other) {
                    self.held.push(k);
                }
                Event::Done
            }
        }
    }
}

fn run(fragment: &str, cap: usize, fake: &mut Fake) -> Outcome {
    let (mut search, mut step) = CursorSearch::new(fragment.to_string(), cap);
    let mut column = 0;
    while !matches!(step, Step::Finish) {
        let ev = fake.answer(&step, &mut column);
        step = search.advance(ev);
    }
    assert!(search.is_done());
    assert!(fake.held.is_empty(), "left held: {:?}", fake.held);
    search.outcome()
}

fn rows(n: usize) -> Vec<[&'static str; 3]> {
    let all = [
        ["a.pdf", "file:C:/docs/a.pdf", "1200"],
        ["b.png", "file:C:/pics/b.png", "34000"],
        ["c.pdf", "file:C:/docs/c.pdf", "5"],
    ];
    (0..n).map(|i| all[i % 3]).collect()
}

#[test]
fn cursor_search_collects_rows() {
    let mut fake = Fake::new(rows(2));
    let (r, warning) = run("doc", MAX_RESULTS, &mut fake);
    let got = r.unwrap();
    assert!(warning.is_none());
    assert_eq!(got.len(), 2);
    assert_eq!(got[0], ("a.pdf".to_string(), "file:C:/docs/a.pdf".to_string(), "1200".to_string()));
    assert_eq!(got[1].2, "34000");
}

#[test]
fn cursor_search_with_no_match_is_empty() {
    let mut fake = Fake::new(Vec::new());
    let (r, warning) = run("zzz", MAX_RESULTS, &mut fake);
    assert_eq!(r.unwrap(), Vec::new());
    assert!(warning.is_none());
}

#[test]
fn cursor_search_without_rowset_is_empty() {
    let (mut search, mut step) = CursorSearch::new("zzz".to_string(), MAX_RESULTS);
    let mut held = 0;
    while !matches!(step, Step::Finish) {
        let ev = match &step {
            Step::GenerateSql(_) => Event::Sql("SELECT".to_string()),
            Step::Execute => Event::Missing,
            Step::Release(_) => {
                held -= 1;
                Event::Done
            }
            s => {
                if acquired(s).is_some() {
                    held += 1;
                }
                Event::Done
            }
        };
        step = search.advance(ev);
    }
    assert_eq!(held, 0);
    let (r, _) = search.outcome();
    assert_eq!(r.unwrap(), Vec::new());
}

#[test]
fn cursor_search_keeps_at_most_the_cap() {
    let mut fake = Fake::new(rows(9));
    let (r, _) = run("doc", 4, &mut fake);
    assert_eq!(r.unwrap().len(), 4);
    assert_eq!(fake.steps.iter().filter(|s| *s == "FetchRow").count(), 4);

    let mut fake = Fake::new(rows(150));
    let (r, _) = run("doc", MAX_RESULTS, &mut fake);
    assert_eq!(r.unwrap().len(), 100);
}

#[test]
fn cursor_search_refused_fragment_runs_nothing() {
    let (mut search, step) = CursorSearch::new("bad\u{0}".to_string(), MAX_RESULTS);
    assert!(matches!(step, Step::Finish));
    assert!(matches!(search.advance(Event::Done), Step::Finish));
    let (r, warning) = search.outcome();
    assert!(matches!(r, Err(SearchLocalFileError::QueryConstruction(_))));
    assert!(warning.is_none());
}

#[test]
fn cursor_search_stage_errors_release_everything() {
    let cases: [(&str, fn(&SearchLocalFileError) -> bool); 6] = [
        ("InitializeOle", |e| matches!(e, SearchLocalFileError::OleInitialize(m) if m == "InitializeOle failed")),
        ("OpenSearchManager", |e| matches!(e, SearchLocalFileError::CoCreateInstance(_, "ISearchManager"))),
        ("GenerateSql", |e| matches!(e, SearchLocalFileError::GenerateSQLFromUserQuery(_))),
        ("CreateSession", |e| matches!(e, SearchLocalFileError::CreateSession(m) if m == "CreateSession failed")),
        ("SetCommandText", |e| matches!(e, SearchLocalFileError::SetCommandText(_, sql) if sql.starts_with("SELECT"))),
        ("Execute", |e| matches!(e, SearchLocalFileError::Execute(_, _))),
    ];
    for (stage, is_expected) in cases {
        let mut fake = Fake::new(rows(2)).failing(stage, 0);
        let (r, _) = run("doc", MAX_RESULTS, &mut fake);
        match r {
            Err(e) => assert!(is_expected(&e), "{stage}: {e:?}"),
            Ok(_) => panic!("{stage} should fail"),
        }
        assert!(!fake.steps.iter().any(|s| s == "FetchRow"));
    }
}

#[test]
fn cursor_search_more_stage_errors() {
    let cases: [(&str, fn(&SearchLocalFileError) -> bool); 9] = [
        ("OpenCatalog", |e| matches!(e, SearchLocalFileError::GetCatalog(_))),
        ("OpenQueryHelper", |e| matches!(e, SearchLocalFileError::GetQueryHelper(_))),
        ("SetSelectColumns", |e| matches!(e, SearchLocalFileError::SetQuery(_, "QuerySelectColumns"))),
        ("SetWhereRestrictions", |e| matches!(e, SearchLocalFileError::SetQuery(_, "QueryWhereRestrictions"))),
        ("SetMaxResults", |e| matches!(e, SearchLocalFileError::SetQuery(_, "QueryMaxResults"))),
        ("CreateDataInitializer", |e| matches!(e, SearchLocalFileError::CoCreateInstance(_, "IDataInitialize"))),
        ("GetDataSource", |e| matches!(e, SearchLocalFileError::GetDataSource(_))),
        ("InitializeDataSource", |e| matches!(e, SearchLocalFileError::DBInitialize(_))),
        ("CreateCommand", |e| matches!(e, SearchLocalFileError::CreateCommand(_))),
    ];
    for (stage, is_expected) in cases {
        let mut fake = Fake::new(rows(1)).failing(stage, 0);
        let (r, _) = run("doc", MAX_RESULTS, &mut fake);
        match r {
            Err(e) => assert!(is_expected(&e), "{stage}: {e:?}"),
            Ok(_) => panic!("{stage} should fail"),
        }
    }
    let mut fake = Fake::new(rows(1)).failing("OpenAccessorInterface", 0);
    let (r, _) = run("doc", MAX_RESULTS, &mut fake);
    assert!(matches!(r, Err(SearchLocalFileError::Cast(_, "IAccessor"))));
}

#[test]
fn cursor_search_keeps_rows_before_a_column_failure() {
    // the fourth column read is the first column of the second row
    let mut fake = Fake::new(rows(3)).failing("GetData", 3);
    let (r, warning) = run("doc", MAX_RESULTS, &mut fake);
    assert_eq!(r.unwrap().len(), 1);
    assert!(matches!(warning, Some(SearchLocalFileError::GetData(_, 1, 0))));
    // the accessor of the failed column was released
    let creates = fake.steps.iter().filter(|s| *s == "CreateAccessor").count();
    assert_eq!(creates, 4);
}

#[test]
fn cursor_search_keeps_rows_when_a_row_release_fails() {
    let mut fake = Fake::new(rows(3)).failing("Release", 3);
    let (r, warning) = run("doc", MAX_RESULTS, &mut fake);
    // releases: three accessors, then the first row, which fails
    assert_eq!(r.unwrap().len(), 1);
    assert!(matches!(warning, Some(SearchLocalFileError::ReleaseRows(_, 1))));
}

#[test]
fn cursor_search_accessor_failure_ends_rows() {
    let mut fake = Fake::new(rows(2)).failing("CreateAccessor", 2);
    let (r, warning) = run("doc", MAX_RESULTS, &mut fake);
    assert_eq!(r.unwrap(), Vec::new());
    assert!(matches!(warning, Some(SearchLocalFileError::CreateAccessor(_))));
}

#[test]
fn cursor_search_fetch_failure_is_a_natural_end() {
    let mut fake = Fake::new(rows(3)).failing("FetchRow", 2);
    let (r, warning) = run("doc", MAX_RESULTS, &mut fake);
    assert_eq!(r.unwrap().len(), 2);
    assert!(warning.is_none());
}

#[test]
fn cursor_search_asks_for_columns_in_order() {
    let mut fake = Fake::new(rows(1));
    let (mut search, mut step) = CursorSearch::new("doc".to_string(), MAX_RESULTS);
    let mut ordinals = Vec::new();
    let mut column = 0;
    while !matches!(step, Step::Finish) {
        if let Step::CreateAccessor(o) = step {
            ordinals.push(o);
        }
        if let Step::SetCommandText(sql) = &step {
            assert_eq!(sql, "SELECT System.FileName FROM SystemIndex");
        }
        let ev = fake.answer(&step, &mut column);
        step = search.advance(ev);
    }
    assert_eq!(ordinals, vec![1, 2, 3]);
}

#[test]
fn cursor_search_accessor_release_failure_is_reported() {
    // the first release is the accessor of the first column of the first row
    let mut fake = Fake::new(rows(2)).failing("Release", 0);
    let (r, warning) = run("doc", MAX_RESULTS, &mut fake);
    assert_eq!(r.unwrap(), Vec::new());
    assert!(matches!(warning, Some(SearchLocalFileError::ReleaseAccessor(_, 0, 0))));
    assert_eq!(fake.steps.iter().filter(|s| *s == "FetchRow").count(), 1);
}

#[test]
fn cursor_search_cast_errors_are_tagged() {
    let cases = [
        ("CastDataSource", "IDBInitialize"),
        ("CastSessionFactory", "IDBCreateSession"),
        ("CastCommandFactory", "IDBCreateCommand"),
        ("CastCommandText", "ICommandText"),
        ("OpenAccessorInterface", "IAccessor"),
    ];
    for (stage, interface) in cases {
        let mut fake = Fake::new(rows(1)).failing(stage, 0);
        let (r, _) = run("doc", MAX_RESULTS, &mut fake);
        match r {
            Err(SearchLocalFileError::Cast(m, to)) => {
                assert_eq!(to, interface);
                assert_eq!(m, format!("{stage} failed"));
            }
            other => panic!("{stage}: {other:?}"),
        }
    }
}

#[test]
fn cursor_search_sends_the_fixed_query_settings() {
    let (mut search, mut step) = CursorSearch::new("doc".to_string(), MAX_RESULTS);
    let mut seen = Vec::new();
    while !matches!(step, Step::Finish) {
        let ev = match &step {
            Step::OpenCatalog(t) => {
                seen.push(t.clone());
                Event::Done
            }
            Step::SetSelectColumns(t) | Step::SetWhereRestrictions(t) | Step::GetDataSource(t) => {
                seen.push(t.clone());
                Event::Done
            }
            Step::SetMaxResults(n) => {
                seen.push(n.to_string());
                Event::Done
            }
            Step::GenerateSql(_) => Event::Sql("SELECT".to_string()),
            Step::FetchRow => Event::Missing,
            _ => Event::Done,
        };
        step = search.advance(ev);
    }
    assert_eq!(
        seen,
        vec![
            CATALOG.to_string(),
            SELECT_COLUMNS.to_string(),
            WHERE_RESTRICTIONS.to_string(),
            "100".to_string(),
            PROVIDER.to_string(),
        ]
    );
    assert_eq!(SELECT_COLUMNS, "System.FileName, System.ItemUrl, System.Size");
    assert!(WHERE_RESTRICTIONS.contains("System.Size < 10000000"));
}

#[test]
fn cursor_search_exactly_cap_rows_then_end_is_ok() {
    let mut fake = Fake::new(rows(3));
    let (r, warning) = run("doc", 3, &mut fake);
    assert_eq!(r.unwrap().len(), 3);
    assert!(warning.is_none());
    assert_eq!(fake.steps.iter().filter(|s| *s == "FetchRow").count(), 3);
}

#[test]
fn cursor_search_runtime_released_last() {
    let mut fake = Fake::new(rows(2)).failing("GetData", 4);
    let (mut search, mut step) = CursorSearch::new("doc".to_string(), MAX_RESULTS);
    let mut column = 0;
    let mut releases = Vec::new();
    while !matches!(step, Step::Finish) {
        if let Step::Release(k) = step {
            releases.push(k);
        }
        let ev = fake.answer(&step, &mut column);
        step = search.advance(ev);
    }
    assert_eq!(releases.last(), Some(&Resource::OleRuntime));
    assert_eq!(releases.iter().filter(|k| **k == Resource::OleRuntime).count(), 1);
}
