//! The cursor protocol of the OLE DB search provider, as a machine of
//! stages. Each call hands back the next native step; the caller performs it
//! and reports how it went. The machine decides the order of the steps, the
//! stage-tagged errors, the row cap, the decoding of column buffers, and the
//! release of every native resource it asked for.
use crate::ledger::{
    acquired, acquisitions, lemma_clear_ledger_balanced, released_last, releases, untouched, Ledger,
    Resource,
};
use crate::utf16::{
    contains_nul, decode_wide_buffer, decode_wide_buffer_spec, encode_utf16, encode_wide, has_nul,
    NUL_MESSAGE,
};
use vstd::prelude::*;
use vstd::string::*;

verus! {

/// A found file: its name, its location, and its size.
pub type SearchData = (String, String, String);

pub type SearchLocalFileResult<T> = Result<T, SearchLocalFileError>;

/// The errors of the OLE DB search, each tagged with the stage that failed
/// and carrying the native diagnostic text.
#[derive(Debug)]
pub enum SearchLocalFileError {
    /// The fragment cannot be encoded for the native layer.
    QueryConstruction(String),
    CreateAccessor(String),
    /// (message, interface cast to)
    Cast(String, &'static str),
    /// (message, row index, column index)
    GetData(String, usize, usize),
    /// (message, row index, column index)
    ReleaseAccessor(String, usize, usize),
    /// (message, rows gathered)
    ReleaseRows(String, usize),
    /// (message, interface created)
    CoCreateInstance(String, &'static str),
    GetDataSource(String),
    CreateSession(String),
    CreateCommand(String),
    DBInitialize(String),
    /// (message, SQL text)
    SetCommandText(String, String),
    /// (message, SQL text)
    Execute(String, String),
    GetCatalog(String),
    GetQueryHelper(String),
    /// (message, setting)
    SetQuery(String, &'static str),
    GenerateSQLFromUserQuery(String),
    OleInitialize(String),
}

/// The columns that a query selects: name, location, size.
pub const SELECT_COLUMNS: &'static str = "System.FileName, System.ItemUrl, System.Size";

/// The fixed filters: the allowed extensions and the size ceiling.
pub const WHERE_RESTRICTIONS: &'static str =
    "AND (System.FileExtension = '.pdf' OR System.FileExtension = '.png') AND System.Size < 10000000";

/// How many rows a query asks for, and how many are kept at most.
pub const MAX_RESULTS: usize = 100;

/// The catalog that is searched.
pub const CATALOG: &'static str = "SystemIndex";

/// The data source of the search provider.
pub const PROVIDER: &'static str =
    "provider=Search.CollatorDSO.1;EXTENDED PROPERTIES=\"Application=Windows\"";

/// How many columns each row yields.
pub const COLUMN_COUNT: usize = 3;

/// The size, in wide units, of the buffer that a column is read into.
pub const COLUMN_BUFFER_UNITS: usize = 512;

#[derive(Clone, Copy, Debug, PartialEq, Eq, Structural)]
pub enum Stage {
    InitializeOle,
    OpenSearchManager,
    OpenCatalog,
    OpenQueryHelper,
    SetSelectColumns,
    SetWhereRestrictions,
    SetMaxResults,
    GenerateSql,
    CreateDataInitializer,
    GetDataSource,
    CastDataSource,
    InitializeDataSource,
    CastSessionFactory,
    CreateSession,
    CastCommandFactory,
    CreateCommand,
    CastCommandText,
    SetCommandText,
    Execute,
    OpenAccessorInterface,
    FetchRow,
    CreateAccessor,
    GetData,
    ReleaseAccessor,
    ReleaseRow,
    Teardown,
    Finished,
}

/// The next native step that the caller performs.
pub enum Step {
    InitializeOle,
    OpenSearchManager,
    /// Open the catalog of this name.
    OpenCatalog(String),
    OpenQueryHelper,
    /// Select these columns.
    SetSelectColumns(String),
    /// Restrict the query by these conditions.
    SetWhereRestrictions(String),
    /// Ask for this many rows at most.
    SetMaxResults(usize),
    /// Turn the user query, zero-terminated wide text, into SQL.
    GenerateSql(Vec<u16>),
    CreateDataInitializer,
    /// Get the data source that this initialization string names.
    GetDataSource(String),
    /// Cast the data source to IDBInitialize.
    CastDataSource,
    InitializeDataSource,
    /// Cast the data source to IDBCreateSession.
    CastSessionFactory,
    CreateSession,
    /// Cast the session to IDBCreateCommand.
    CastCommandFactory,
    CreateCommand,
    /// Cast the command to ICommandText.
    CastCommandText,
    SetCommandText(String),
    Execute,
    OpenAccessorInterface,
    FetchRow,
    /// Bind an accessor to the column of this ordinal, counted from 1, with a
    /// buffer of [`COLUMN_BUFFER_UNITS`] wide units.
    CreateAccessor(usize),
    /// Read the current column into a buffer.
    GetData,
    /// Release the resource of this kind that was acquired last.
    Release(Resource),
    /// The search is over: read its outcome.
    Finish,
}

/// How a step went.
pub enum Event {
    Done,
    Failed(String),
    /// The SQL text that the query helper generated.
    Sql(String),
    /// The step produced nothing: no rowset, or no further row.
    Missing,
    /// The buffer that a column was read into.
    Data(Vec<u16>),
}

pub open spec fn is_setup(s: Stage) -> bool {
    match s {
        Stage::FetchRow | Stage::CreateAccessor | Stage::GetData | Stage::ReleaseAccessor
        | Stage::ReleaseRow | Stage::Teardown | Stage::Finished => false,
        _ => true,
    }
}

pub open spec fn is_release_stage(s: Stage) -> bool {
    s == Stage::ReleaseAccessor || s == Stage::ReleaseRow || s == Stage::Teardown
}

pub open spec fn is_row_phase(s: Stage) -> bool {
    match s {
        Stage::CreateAccessor | Stage::GetData | Stage::ReleaseAccessor => true,
        _ => false,
    }
}

/// The stage after a setup stage that went well.
pub open spec fn setup_next(s: Stage) -> Stage {
    match s {
        Stage::InitializeOle => Stage::OpenSearchManager,
        Stage::OpenSearchManager => Stage::OpenCatalog,
        Stage::OpenCatalog => Stage::OpenQueryHelper,
        Stage::OpenQueryHelper => Stage::SetSelectColumns,
        Stage::SetSelectColumns => Stage::SetWhereRestrictions,
        Stage::SetWhereRestrictions => Stage::SetMaxResults,
        Stage::SetMaxResults => Stage::GenerateSql,
        Stage::GenerateSql => Stage::CreateDataInitializer,
        Stage::CreateDataInitializer => Stage::GetDataSource,
        Stage::GetDataSource => Stage::CastDataSource,
        Stage::CastDataSource => Stage::InitializeDataSource,
        Stage::InitializeDataSource => Stage::CastSessionFactory,
        Stage::CastSessionFactory => Stage::CreateSession,
        Stage::CreateSession => Stage::CastCommandFactory,
        Stage::CastCommandFactory => Stage::CreateCommand,
        Stage::CreateCommand => Stage::CastCommandText,
        Stage::CastCommandText => Stage::SetCommandText,
        Stage::SetCommandText => Stage::Execute,
        Stage::Execute => Stage::OpenAccessorInterface,
        _ => Stage::FetchRow,
    }
}

/// The resource that a stage acquires when it goes well.
pub open spec fn acquired_by(s: Stage) -> Option<Resource> {
    match s {
        Stage::InitializeOle => Some(Resource::OleRuntime),
        Stage::OpenSearchManager => Some(Resource::SearchManager),
        Stage::OpenCatalog => Some(Resource::Catalog),
        Stage::OpenQueryHelper => Some(Resource::QueryHelper),
        Stage::CreateDataInitializer => Some(Resource::DataInitializer),
        Stage::GetDataSource => Some(Resource::DataSourceObject),
        Stage::CastDataSource => Some(Resource::DataSource),
        Stage::CastSessionFactory => Some(Resource::SessionFactory),
        Stage::CreateSession => Some(Resource::Session),
        Stage::CastCommandFactory => Some(Resource::CommandFactory),
        Stage::CreateCommand => Some(Resource::CommandObject),
        Stage::CastCommandText => Some(Resource::Command),
        Stage::Execute => Some(Resource::Rowset),
        Stage::OpenAccessorInterface => Some(Resource::AccessorInterface),
        Stage::FetchRow => Some(Resource::Row),
        Stage::CreateAccessor => Some(Resource::Accessor),
        _ => None,
    }
}

/// The error of a setup stage that failed with the native message `m`.
pub open spec fn setup_error(s: Stage, m: String, sql: String) -> SearchLocalFileError {
    match s {
        Stage::InitializeOle => SearchLocalFileError::OleInitialize(m),
        Stage::OpenSearchManager => SearchLocalFileError::CoCreateInstance(m, "ISearchManager"),
        Stage::OpenCatalog => SearchLocalFileError::GetCatalog(m),
        Stage::OpenQueryHelper => SearchLocalFileError::GetQueryHelper(m),
        Stage::SetSelectColumns => SearchLocalFileError::SetQuery(m, "QuerySelectColumns"),
        Stage::SetWhereRestrictions => SearchLocalFileError::SetQuery(m, "QueryWhereRestrictions"),
        Stage::SetMaxResults => SearchLocalFileError::SetQuery(m, "QueryMaxResults"),
        Stage::GenerateSql => SearchLocalFileError::GenerateSQLFromUserQuery(m),
        Stage::CreateDataInitializer => SearchLocalFileError::CoCreateInstance(m, "IDataInitialize"),
        Stage::GetDataSource => SearchLocalFileError::GetDataSource(m),
        Stage::CastDataSource => SearchLocalFileError::Cast(m, "IDBInitialize"),
        Stage::CastSessionFactory => SearchLocalFileError::Cast(m, "IDBCreateSession"),
        Stage::CastCommandFactory => SearchLocalFileError::Cast(m, "IDBCreateCommand"),
        Stage::CastCommandText => SearchLocalFileError::Cast(m, "ICommandText"),
        Stage::InitializeDataSource => SearchLocalFileError::DBInitialize(m),
        Stage::CreateSession => SearchLocalFileError::CreateSession(m),
        Stage::CreateCommand => SearchLocalFileError::CreateCommand(m),
        Stage::SetCommandText => SearchLocalFileError::SetCommandText(m, sql),
        Stage::Execute => SearchLocalFileError::Execute(m, sql),
        _ => SearchLocalFileError::Cast(m, "IAccessor"),
    }
}

fn next_setup_stage(s: Stage) -> (r: Stage)
    ensures
        r == setup_next(s),
{
    match s {
        Stage::InitializeOle => Stage::OpenSearchManager,
        Stage::OpenSearchManager => Stage::OpenCatalog,
        Stage::OpenCatalog => Stage::OpenQueryHelper,
        Stage::OpenQueryHelper => Stage::SetSelectColumns,
        Stage::SetSelectColumns => Stage::SetWhereRestrictions,
        Stage::SetWhereRestrictions => Stage::SetMaxResults,
        Stage::SetMaxResults => Stage::GenerateSql,
        Stage::GenerateSql => Stage::CreateDataInitializer,
        Stage::CreateDataInitializer => Stage::GetDataSource,
        Stage::GetDataSource => Stage::CastDataSource,
        Stage::CastDataSource => Stage::InitializeDataSource,
        Stage::InitializeDataSource => Stage::CastSessionFactory,
        Stage::CastSessionFactory => Stage::CreateSession,
        Stage::CreateSession => Stage::CastCommandFactory,
        Stage::CastCommandFactory => Stage::CreateCommand,
        Stage::CreateCommand => Stage::CastCommandText,
        Stage::CastCommandText => Stage::SetCommandText,
        Stage::SetCommandText => Stage::Execute,
        Stage::Execute => Stage::OpenAccessorInterface,
        _ => Stage::FetchRow,
    }
}

fn stage_resource(s: Stage) -> (r: Option<Resource>)
    ensures
        r == acquired_by(s),
{
    match s {
        Stage::InitializeOle => Some(Resource::OleRuntime),
        Stage::OpenSearchManager => Some(Resource::SearchManager),
        Stage::OpenCatalog => Some(Resource::Catalog),
        Stage::OpenQueryHelper => Some(Resource::QueryHelper),
        Stage::CreateDataInitializer => Some(Resource::DataInitializer),
        Stage::GetDataSource => Some(Resource::DataSourceObject),
        Stage::CastDataSource => Some(Resource::DataSource),
        Stage::CastSessionFactory => Some(Resource::SessionFactory),
        Stage::CreateSession => Some(Resource::Session),
        Stage::CastCommandFactory => Some(Resource::CommandFactory),
        Stage::CreateCommand => Some(Resource::CommandObject),
        Stage::CastCommandText => Some(Resource::Command),
        Stage::Execute => Some(Resource::Rowset),
        Stage::OpenAccessorInterface => Some(Resource::AccessorInterface),
        Stage::FetchRow => Some(Resource::Row),
        Stage::CreateAccessor => Some(Resource::Accessor),
        _ => None,
    }
}

fn stage_error(s: Stage, m: String, sql: String) -> (r: SearchLocalFileError)
    ensures
        r == setup_error(s, m, sql),
{
    match s {
        Stage::InitializeOle => SearchLocalFileError::OleInitialize(m),
        Stage::OpenSearchManager => SearchLocalFileError::CoCreateInstance(m, "ISearchManager"),
        Stage::OpenCatalog => SearchLocalFileError::GetCatalog(m),
        Stage::OpenQueryHelper => SearchLocalFileError::GetQueryHelper(m),
        Stage::SetSelectColumns => SearchLocalFileError::SetQuery(m, "QuerySelectColumns"),
        Stage::SetWhereRestrictions => SearchLocalFileError::SetQuery(m, "QueryWhereRestrictions"),
        Stage::SetMaxResults => SearchLocalFileError::SetQuery(m, "QueryMaxResults"),
        Stage::GenerateSql => SearchLocalFileError::GenerateSQLFromUserQuery(m),
        Stage::CreateDataInitializer => SearchLocalFileError::CoCreateInstance(m, "IDataInitialize"),
        Stage::GetDataSource => SearchLocalFileError::GetDataSource(m),
        Stage::CastDataSource => SearchLocalFileError::Cast(m, "IDBInitialize"),
        Stage::CastSessionFactory => SearchLocalFileError::Cast(m, "IDBCreateSession"),
        Stage::CastCommandFactory => SearchLocalFileError::Cast(m, "IDBCreateCommand"),
        Stage::CastCommandText => SearchLocalFileError::Cast(m, "ICommandText"),
        Stage::InitializeDataSource => SearchLocalFileError::DBInitialize(m),
        Stage::CreateSession => SearchLocalFileError::CreateSession(m),
        Stage::CreateCommand => SearchLocalFileError::CreateCommand(m),
        Stage::SetCommandText => SearchLocalFileError::SetCommandText(m, sql),
        Stage::Execute => SearchLocalFileError::Execute(m, sql),
        _ => SearchLocalFileError::Cast(m, "IAccessor"),
    }
}

/// The user query as the query helper takes it: wide units, zero-terminated.
pub fn string_to_pcwstr(s: String) -> (r: Vec<u16>)
    ensures
        r@ == encode_utf16(s@).push(0),
{
    let mut v = encode_wide(s.as_str());
    v.push(0);
    v
}

/// True when `step` is the step that stage `s` asks for, given the user
/// query and the SQL text.
pub open spec fn step_of_stage(
    step: Step,
    s: Stage,
    query: Seq<u16>,
    sql: String,
    column: usize,
    cap: usize,
) -> bool {
    match s {
        Stage::InitializeOle => step is InitializeOle,
        Stage::OpenSearchManager => step is OpenSearchManager,
        Stage::OpenCatalog => step matches Step::OpenCatalog(t) && t@ == CATALOG@,
        Stage::OpenQueryHelper => step is OpenQueryHelper,
        Stage::SetSelectColumns => step matches Step::SetSelectColumns(t) && t@ == SELECT_COLUMNS@,
        Stage::SetWhereRestrictions => step matches Step::SetWhereRestrictions(t) && t@
            == WHERE_RESTRICTIONS@,
        Stage::SetMaxResults => step == Step::SetMaxResults(cap),
        Stage::GenerateSql => step matches Step::GenerateSql(q) && q@ == query,
        Stage::CreateDataInitializer => step is CreateDataInitializer,
        Stage::GetDataSource => step matches Step::GetDataSource(t) && t@ == PROVIDER@,
        Stage::CastDataSource => step is CastDataSource,
        Stage::CastSessionFactory => step is CastSessionFactory,
        Stage::CastCommandFactory => step is CastCommandFactory,
        Stage::CastCommandText => step is CastCommandText,
        Stage::InitializeDataSource => step is InitializeDataSource,
        Stage::CreateSession => step is CreateSession,
        Stage::CreateCommand => step is CreateCommand,
        Stage::SetCommandText => step == Step::SetCommandText(sql),
        Stage::Execute => step is Execute,
        Stage::OpenAccessorInterface => step is OpenAccessorInterface,
        Stage::FetchRow => step is FetchRow,
        Stage::CreateAccessor => step == Step::CreateAccessor((column + 1) as usize),
        Stage::GetData => step is GetData,
        Stage::Finished => step is Finish,
        _ => step is Release,
    }
}

/// One run of the cursor protocol, from the runtime's initialization to the
/// release of the last native resource.
pub struct CursorSearch {
    stage: Stage,
    ledger: Ledger,
    query: Vec<u16>,
    sql: String,
    records: Vec<SearchData>,
    row: Vec<String>,
    column: usize,
    error: Option<SearchLocalFileError>,
    warning: Option<SearchLocalFileError>,
    cap: usize,
}

impl CursorSearch {
    pub closed spec fn stage(&self) -> Stage {
        self.stage
    }

    /// The native resources acquired and released so far.
    pub closed spec fn ledger(&self) -> Ledger {
        self.ledger
    }

    /// The user query, as handed to the query helper.
    pub closed spec fn query(&self) -> Seq<u16> {
        self.query@
    }

    /// The SQL text that the query helper generated.
    pub closed spec fn sql(&self) -> String {
        self.sql
    }

    /// The complete rows gathered so far.
    pub closed spec fn records(&self) -> Seq<SearchData> {
        self.records@
    }

    /// The decoded columns of the current row.
    pub closed spec fn row(&self) -> Seq<String> {
        self.row@
    }

    /// The index of the current column, counted from 0.
    pub closed spec fn column(&self) -> usize {
        self.column
    }

    /// The failure that aborts the search: no rows are handed back.
    pub closed spec fn error(&self) -> Option<SearchLocalFileError> {
        self.error
    }

    /// The first failure while rows were read: the rows gathered before it
    /// are kept.
    pub closed spec fn warning(&self) -> Option<SearchLocalFileError> {
        self.warning
    }

    /// The most rows that are kept.
    pub closed spec fn cap(&self) -> usize {
        self.cap
    }

    /// What holds whatever the stage.
    pub open spec fn wf_common(&self) -> bool {
        &&& self.ledger().wf()
        &&& 0 < self.cap()
        &&& self.records().len() <= self.cap()
        &&& self.column() < COLUMN_COUNT
        &&& self.row().len() <= self.column() + 1
        // the runtime is acquired first, once, and so released last
        &&& self.ledger().held().len() > 0 ==> self.ledger().held()[0] == Resource::OleRuntime
        &&& forall|i: int|
            0 < i < self.ledger().held().len() ==> #[trigger] self.ledger().held()[i]
                != Resource::OleRuntime
    }

    pub open spec fn wf(&self) -> bool {
        &&& self.wf_common()
        &&& (self.stage() == Stage::FetchRow || is_row_phase(self.stage())) ==> self.records().len()
            < self.cap()
        &&& self.stage() == Stage::CreateAccessor ==> self.row().len() == self.column()
        &&& self.stage() == Stage::GetData ==> self.row().len() == self.column()
        &&& self.stage() == Stage::Finished ==> self.ledger().held().len() == 0
        &&& is_release_stage(self.stage()) ==> self.ledger().held().len() > 0
        &&& is_setup(self.stage()) ==> self.records().len() == 0
        &&& is_setup(self.stage()) && self.stage() != Stage::InitializeOle ==> self.ledger().held().len() > 0
        &&& self.stage() == Stage::InitializeOle ==> self.ledger().held().len() == 0
        &&& self.error() is Some ==> self.stage() == Stage::Teardown || self.stage() == Stage::Finished
        &&& self.stage() == Stage::FetchRow ==> self.ledger().held().len() >= 1
        &&& (self.stage() == Stage::CreateAccessor || self.stage() == Stage::ReleaseRow) ==> {
            &&& self.ledger().held().len() >= 2
            &&& self.ledger().held().last() == Resource::Row
        }
        &&& (self.stage() == Stage::GetData || self.stage() == Stage::ReleaseAccessor) ==> {
            &&& self.ledger().held().len() >= 3
            &&& self.ledger().held().last() == Resource::Accessor
            &&& self.ledger().held()[self.ledger().held().len() - 2] == Resource::Row
        }
    }

    pub open spec fn is_finished(&self) -> bool {
        self.stage() == Stage::Finished
    }

    /// Starts a search for the name fragment, keeping at most `cap` rows. A
    /// fragment that holds a nul character is refused at once: no native
    /// step is asked for and no resource is acquired.
    pub fn new(fragment: String, cap: usize) -> (r: (Self, Step))
        requires
            cap > 0,
        ensures
            r.0.wf(),
            r.0.cap() == cap,
            r.0.records().len() == 0,
            r.0.ledger().log().len() == 0,
            r.0.warning() is None,
            has_nul(fragment@) ==> {
                &&& r.0.is_finished()
                &&& r.1 is Finish
                &&& r.0.error() matches Some(SearchLocalFileError::QueryConstruction(_))
            },
            !has_nul(fragment@) ==> {
                &&& r.0.stage() == Stage::InitializeOle
                &&& r.1 is InitializeOle
                &&& r.0.error() is None
                &&& r.0.query() == encode_utf16(fragment@).push(0)
            },
    {
        let nul = contains_nul(fragment.as_str());
        let mut search = CursorSearch {
            stage: Stage::InitializeOle,
            ledger: Ledger::new(),
            query: Vec::new(),
            sql: String::new(),
            records: Vec::new(),
            row: Vec::new(),
            column: 0,
            error: None,
            warning: None,
            cap,
        };
        if nul {
            search.stage = Stage::Finished;
            search.error = Some(
                SearchLocalFileError::QueryConstruction(NUL_MESSAGE.to_string()),
            );
            (search, Step::Finish)
        } else {
            search.query = string_to_pcwstr(fragment);
            (search, Step::InitializeOle)
        }
    }

    /// The step that the current stage asks for.
    fn current_step(&self) -> (step: Step)
        requires
            self.wf(),
        ensures
            step_of_stage(step, self.stage(), self.query(), self.sql(), self.column(), self.cap()),
            step matches Step::Release(k) ==> self.ledger().held().len() > 0
                && self.ledger().held().last() == k,
    {
        match self.stage {
            Stage::InitializeOle => Step::InitializeOle,
            Stage::OpenSearchManager => Step::OpenSearchManager,
            Stage::OpenCatalog => Step::OpenCatalog(CATALOG.to_string()),
            Stage::OpenQueryHelper => Step::OpenQueryHelper,
            Stage::SetSelectColumns => Step::SetSelectColumns(SELECT_COLUMNS.to_string()),
            Stage::SetWhereRestrictions => Step::SetWhereRestrictions(WHERE_RESTRICTIONS.to_string()),
            Stage::SetMaxResults => Step::SetMaxResults(self.cap),
            Stage::GenerateSql => Step::GenerateSql(self.query.clone()),
            Stage::CreateDataInitializer => Step::CreateDataInitializer,
            Stage::GetDataSource => Step::GetDataSource(PROVIDER.to_string()),
            Stage::CastDataSource => Step::CastDataSource,
            Stage::CastSessionFactory => Step::CastSessionFactory,
            Stage::CastCommandFactory => Step::CastCommandFactory,
            Stage::CastCommandText => Step::CastCommandText,
            Stage::InitializeDataSource => Step::InitializeDataSource,
            Stage::CreateSession => Step::CreateSession,
            Stage::CreateCommand => Step::CreateCommand,
            Stage::SetCommandText => Step::SetCommandText(self.sql.clone()),
            Stage::Execute => Step::Execute,
            Stage::OpenAccessorInterface => Step::OpenAccessorInterface,
            Stage::FetchRow => Step::FetchRow,
            Stage::CreateAccessor => Step::CreateAccessor(self.column + 1),
            Stage::GetData => Step::GetData,
            Stage::Finished => Step::Finish,
            _ => match self.ledger.top() {
                Some(k) => Step::Release(k),
                None => Step::Finish,
            },
        }
    }
}

impl CursorSearch {
    /// Whether the event reports that a setup stage went well.
    pub open spec fn setup_succeeded(s: Stage, ev: Event) -> bool {
        if s == Stage::GenerateSql {
            ev is Sql
        } else {
            ev is Done
        }
    }

    /// The first warning is kept.
    pub open spec fn warned(pre: Option<SearchLocalFileError>, w: SearchLocalFileError) -> Option<
        SearchLocalFileError,
    > {
        if pre is None {
            Some(w)
        } else {
            pre
        }
    }

    /// What a step does to the ledger: each stage that goes well acquires its
    /// resource, each release stage releases the resource acquired last, and
    /// nothing else acquires or releases anything.
    pub open spec fn ledger_follows(pre: Self, post: Self, ev: Event) -> bool {
        let (a, b) = (pre.ledger(), post.ledger());
        if is_release_stage(pre.stage()) {
            released_last(a, b)
        } else if is_setup(pre.stage()) && Self::setup_succeeded(pre.stage(), ev) {
            match acquired_by(pre.stage()) {
                Some(k) => acquired(a, b, k),
                None => untouched(a, b),
            }
        } else if pre.stage() == Stage::FetchRow && ev is Done {
            acquired(a, b, Resource::Row)
        } else if pre.stage() == Stage::CreateAccessor && ev is Done {
            acquired(a, b, Resource::Accessor)
        } else {
            untouched(a, b)
        }
    }

    fn warn(&mut self, w: SearchLocalFileError)
        ensures
            final(self).warning() == Self::warned(old(self).warning(), w),
            final(self).stage() == old(self).stage(),
            final(self).ledger() == old(self).ledger(),
            final(self).query() == old(self).query(),
            final(self).sql() == old(self).sql(),
            final(self).records() == old(self).records(),
            final(self).row() == old(self).row(),
            final(self).column() == old(self).column(),
            final(self).error() == old(self).error(),
            final(self).cap() == old(self).cap(),
    {
        if self.warning.is_none() {
            self.warning = Some(w);
        }
    }

    /// Goes on releasing what is held, and ends once nothing is.
    fn teardown(&mut self) -> (step: Step)
        requires
            old(self).wf_common(),
        ensures
            final(self).wf(),
            final(self).ledger() == old(self).ledger(),
            final(self).stage() == (if old(self).ledger().held().len() == 0 {
                Stage::Finished
            } else {
                Stage::Teardown
            }),
            final(self).query() == old(self).query(),
            final(self).sql() == old(self).sql(),
            final(self).records() == old(self).records(),
            final(self).row() == old(self).row(),
            final(self).column() == old(self).column(),
            final(self).error() == old(self).error(),
            final(self).warning() == old(self).warning(),
            final(self).cap() == old(self).cap(),
            step_of_stage(step, final(self).stage(), final(self).query(), final(self).sql(), final(self).column(), final(self).cap()),
            step matches Step::Release(k) ==> final(self).ledger().held().len() > 0
                && final(self).ledger().held().last() == k,
    {
        if self.ledger.is_clear() {
            self.stage = Stage::Finished;
        } else {
            self.stage = Stage::Teardown;
        }
        self.current_step()
    }

    /// Takes the outcome of the last step and hands back the next one.
    pub fn advance(&mut self, ev: Event) -> (step: Step)
        requires
            old(self).wf(),
        ensures
            final(self).wf(),
            final(self).cap() == old(self).cap(),
            final(self).query() == old(self).query(),
            step_of_stage(step, final(self).stage(), final(self).query(), final(self).sql(), final(self).column(), final(self).cap()),
            step matches Step::Release(k) ==> final(self).ledger().held().len() > 0
                && final(self).ledger().held().last() == k,
            (step is Finish) <==> final(self).is_finished(),
            Self::ledger_follows(*old(self), *final(self), ev),
            // the runtime is released only once nothing else is held
            step == Step::Release(Resource::OleRuntime) ==> final(self).ledger().held().len() == 1,
            // an error is only ever set by a failed setup stage
            !is_setup(old(self).stage()) ==> final(self).error() == old(self).error(),
            is_setup(old(self).stage()) && !Self::setup_succeeded(old(self).stage(), ev) && !(
            old(self).stage() == Stage::Execute && ev is Missing) ==> final(self).error() is Some,
            // a warning is only ever set while rows are read
            (is_setup(old(self).stage()) || old(self).stage() == Stage::Teardown
                || old(self).is_finished()) ==> final(self).warning() == old(self).warning(),
            // once over, the search asks for nothing more
            old(self).is_finished() ==> *final(self) == *old(self),
            // teardown only releases
            old(self).stage() == Stage::Teardown ==> {
                &&& final(self).ledger().held() == old(self).ledger().held().drop_last()
                &&& final(self).stage() == Stage::Teardown || final(self).is_finished()
                &&& final(self).error() == old(self).error()
                &&& final(self).records() == old(self).records()
            },
            // setup: each stage that goes well acquires its resource and
            // moves on; one that fails ends the search with its own error
            is_setup(old(self).stage()) && Self::setup_succeeded(old(self).stage(), ev) ==> {
                &&& final(self).stage() == setup_next(old(self).stage())
                &&& final(self).ledger().held() == (match acquired_by(old(self).stage()) {
                    Some(k) => old(self).ledger().held().push(k),
                    None => old(self).ledger().held(),
                })
                &&& final(self).error() is None
            },
            old(self).stage() == Stage::GenerateSql ==> (ev matches Event::Sql(t) ==> final(self).sql() == t),
            old(self).stage() != Stage::GenerateSql ==> final(self).sql() == old(self).sql(),
            is_setup(old(self).stage()) ==> (ev matches Event::Failed(m) ==> {
                &&& final(self).error() == Some(setup_error(old(self).stage(), m, old(self).sql()))
                &&& final(self).ledger().held() == old(self).ledger().held()
                &&& final(self).stage() == Stage::Teardown || final(self).is_finished()
            }),
            // no rowset: nothing matched, and that is no error
            old(self).stage() == Stage::Execute && ev is Missing ==> {
                &&& final(self).error() is None
                &&& final(self).stage() == Stage::Teardown
            },
            // rows: a fetch that yields no row ends the search without error
            old(self).stage() == Stage::FetchRow ==> {
                &&& ev is Done ==> final(self).stage() == Stage::CreateAccessor && final(self).ledger().held() == old(self).ledger().held().push(Resource::Row) && final(self).row().len() == 0 && final(self).column() == 0
                &&& !(ev is Done) ==> final(self).stage() == Stage::Teardown && final(self).error() == old(self).error() && final(self).warning() == old(self).warning()
            },
            old(self).stage() == Stage::CreateAccessor ==> {
                &&& ev is Done ==> final(self).stage() == Stage::GetData && final(self).ledger().held() == old(self).ledger().held().push(Resource::Accessor)
                &&& ev matches Event::Failed(m) ==> final(self).stage() == Stage::ReleaseRow && final(self).warning() == Self::warned(
                    old(self).warning(),
                    SearchLocalFileError::CreateAccessor(m),
                )
            },
            old(self).stage() == Stage::GetData ==> {
                &&& final(self).stage() == Stage::ReleaseAccessor
                &&& ev matches Event::Data(b) ==> final(self).row().len() == old(self).row().len()
                    + 1 && final(self).row().drop_last() == old(self).row() && final(self).row().last()@ == decode_wide_buffer_spec(b@)
                &&& ev matches Event::Failed(m) ==> final(self).warning() == Self::warned(
                    old(self).warning(),
                    SearchLocalFileError::GetData(m, old(self).records().len() as usize, old(self).column()),
                )
            },
            is_release_stage(old(self).stage()) ==> final(self).ledger().held() == old(self).ledger().held().drop_last(),
            // after a column: the next column, or the row's release once the
            // row is complete or a failure was met
            old(self).stage() == Stage::ReleaseAccessor ==> {
                &&& ev matches Event::Failed(m) ==> final(self).warning() == Self::warned(
                    old(self).warning(),
                    SearchLocalFileError::ReleaseAccessor(m, old(self).records().len() as usize, old(self).column()),
                )
                &&& !(ev is Failed) ==> final(self).warning() == old(self).warning()
                &&& (old(self).row().len() == COLUMN_COUNT || final(self).warning() is Some
                    || old(self).row().len() <= old(self).column()) ==> final(self).stage() == Stage::ReleaseRow
                &&& !(old(self).row().len() == COLUMN_COUNT || final(self).warning() is Some
                    || old(self).row().len() <= old(self).column()) ==> {
                    &&& final(self).stage() == Stage::CreateAccessor
                    &&& final(self).column() == old(self).column() + 1
                }
            },
            // after a row: the next fetch, unless the cap is reached or a
            // failure was met
            old(self).stage() == Stage::ReleaseRow ==> {
                &&& ev matches Event::Failed(m) ==> final(self).warning() == Self::warned(
                    old(self).warning(),
                    SearchLocalFileError::ReleaseRows(m, old(self).records().len() as usize),
                )
                &&& !(ev is Failed) ==> final(self).warning() == old(self).warning()
                &&& (final(self).warning() is Some || old(self).records().len() == old(self).cap())
                    ==> final(self).stage() == Stage::Teardown
                &&& !(final(self).warning() is Some || old(self).records().len() == old(self).cap())
                    ==> final(self).stage() == Stage::FetchRow
            },
            // a row is kept once all of its columns are read
            final(self).records() == old(self).records() || ({
                &&& old(self).stage() == Stage::ReleaseAccessor
                &&& old(self).row().len() == COLUMN_COUNT
                &&& final(self).records() == old(self).records().push(
                    (old(self).row()[0], old(self).row()[1], old(self).row()[2]),
                )
            }),
            old(self).stage() == Stage::ReleaseAccessor && old(self).row().len() == COLUMN_COUNT
                ==> final(self).records() == old(self).records().push(
                (old(self).row()[0], old(self).row()[1], old(self).row()[2]),
            ),
            // rows are fetched only while fewer than the cap are kept
            step is FetchRow ==> final(self).records().len() < final(self).cap(),
    {
        let ghost pre = *self;
        match self.stage {
            Stage::Finished => Step::Finish,
            Stage::Teardown => {
                self.ledger.release_last();
                self.teardown()
            },
            Stage::FetchRow => match ev {
                Event::Done => {
                    self.ledger.acquire(Resource::Row);
                    self.row = Vec::new();
                    self.column = 0;
                    self.stage = Stage::CreateAccessor;
                    self.current_step()
                },
                _ => self.teardown(),
            },
            Stage::CreateAccessor => match ev {
                Event::Done => {
                    self.ledger.acquire(Resource::Accessor);
                    self.stage = Stage::GetData;
                    self.current_step()
                },
                Event::Failed(m) => {
                    self.warn(SearchLocalFileError::CreateAccessor(m));
                    self.stage = Stage::ReleaseRow;
                    self.current_step()
                },
                _ => {
                    self.warn(SearchLocalFileError::CreateAccessor(String::new()));
                    self.stage = Stage::ReleaseRow;
                    self.current_step()
                },
            },
            Stage::GetData => {
                match ev {
                    Event::Data(b) => {
                        let text = decode_wide_buffer(b.as_slice());
                        self.row.push(text);
                    },
                    Event::Failed(m) => {
                        let w = SearchLocalFileError::GetData(m, self.records.len(), self.column);
                        self.warn(w);
                    },
                    _ => {
                        let w = SearchLocalFileError::GetData(
                            String::new(),
                            self.records.len(),
                            self.column,
                        );
                        self.warn(w);
                    },
                }
                self.stage = Stage::ReleaseAccessor;
                self.current_step()
            },
            Stage::ReleaseAccessor => {
                self.ledger.release_last();
                if let Event::Failed(m) = ev {
                    let w = SearchLocalFileError::ReleaseAccessor(m, self.records.len(), self.column);
                    self.warn(w);
                }
                if self.row.len() == COLUMN_COUNT {
                    let record = (self.row[0].clone(), self.row[1].clone(), self.row[2].clone());
                    self.records.push(record);
                    self.stage = Stage::ReleaseRow;
                } else if self.warning.is_some() || self.row.len() <= self.column {
                    self.stage = Stage::ReleaseRow;
                } else {
                    self.column = self.column + 1;
                    self.stage = Stage::CreateAccessor;
                }
                self.current_step()
            },
            Stage::ReleaseRow => {
                self.ledger.release_last();
                if let Event::Failed(m) = ev {
                    let w = SearchLocalFileError::ReleaseRows(m, self.records.len());
                    self.warn(w);
                }
                self.row = Vec::new();
                self.column = 0;
                if self.warning.is_some() || self.records.len() >= self.cap {
                    self.teardown()
                } else {
                    self.stage = Stage::FetchRow;
                    self.current_step()
                }
            },
            s => {
                let succeeded = match &ev {
                    Event::Sql(_) => s == Stage::GenerateSql,
                    Event::Done => s != Stage::GenerateSql,
                    _ => false,
                };
                if succeeded {
                    if let Event::Sql(t) = ev {
                        self.sql = t;
                    }
                    if let Some(k) = stage_resource(s) {
                        self.ledger.acquire(k);
                    }
                    self.stage = next_setup_stage(s);
                    self.current_step()
                } else if s == Stage::Execute && matches!(ev, Event::Missing) {
                    self.teardown()
                } else {
                    let m = match ev {
                        Event::Failed(m) => m,
                        _ => String::new(),
                    };
                    let e = stage_error(s, m, self.sql.clone());
                    self.error = Some(e);
                    self.teardown()
                }
            },
        }
    }
}

impl CursorSearch {
    pub fn is_done(&self) -> (r: bool)
        ensures
            r == self.is_finished(),
    {
        self.stage == Stage::Finished
    }

    /// The outcome of a finished search: the error that aborted it, or the
    /// rows gathered, never more than the cap; and beside either, the first
    /// failure met while rows were read.
    pub fn outcome(self) -> (r: (SearchLocalFileResult<Vec<SearchData>>, Option<SearchLocalFileError>))
        requires
            self.wf(),
            self.is_finished(),
        ensures
            self.error() matches Some(e) ==> r.0 == Err::<Vec<SearchData>, SearchLocalFileError>(e),
            self.error() is None ==> (r.0 matches Ok(v) && v@ == self.records()),
            r.0 matches Ok(v) ==> v@.len() <= self.cap(),
            r.1 == self.warning(),
    {
        let CursorSearch { error, warning, records, .. } = self;
        match error {
            Some(e) => (Err(e), warning),
            None => (Ok(records), warning),
        }
    }
}

/// Whatever path a search took, once it is finished every kind of native
/// resource has been released as many times as it was acquired.
pub proof fn lemma_finished_search_balanced(s: CursorSearch)
    requires
        s.wf(),
        s.is_finished(),
    ensures
        forall|k: Resource| acquisitions(s.ledger().log(), k) == releases(s.ledger().log(), k),
{
    lemma_clear_ledger_balanced(s.ledger());
}

/// A search never keeps more rows than its cap, whatever the native layer
/// reports.
pub proof fn lemma_rows_within_cap(s: CursorSearch)
    requires
        s.wf(),
    ensures
        s.records().len() <= s.cap(),
{
}

} // verus!
