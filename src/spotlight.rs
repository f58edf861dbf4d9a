//! The metadata-query protocol: the predicate that a name fragment turns
//! into, and the process-wide slot that holds the query in flight.
use crate::ledger::{
    acquired, acquisitions, lemma_clear_ledger_balanced, released_last, releases, untouched, Ledger,
    Resource,
};
use crate::utf16::{contains_nul, has_nul, push_char, NUL_MESSAGE};
use vstd::prelude::*;
use vstd::string::*;

verus! {

/// The errors of the metadata-query search.
#[derive(Debug)]
pub enum SearchLocalFileError {
    /// The fragment cannot be handed to the native layer as a C string.
    CreateCString(String),
}

/// Start of the predicate: the allowed file types, the size ceiling in
/// bytes, then the attribute that the quoted name pattern after it is
/// matched against.
pub const FILE_TYPE_FILTER: &'static str =
    "(kMDItemFSName == '*.pdf' || kMDItemFSName == '*.png' || kMDItemFSName == '*.jpeg') && kMDItemFSSize < 10000000 && kMDItemDisplayName == ";

/// What follows the quoted pattern: match without regard to case and
/// diacritics.
pub const MATCH_MODIFIERS: &'static str = "cd";

/// How a result's change date is written.
pub const DATE_FORMAT: &'static str = "yyyy-MM-dd HH:mm:ss";

/// How many results a metadata query hands back at most.
pub const MAX_RESULTS: usize = 20;

pub open spec fn needs_escape(c: char) -> bool {
    c == '"' || c == '\\'
}

pub open spec fn escape_char(c: char) -> Seq<char> {
    if needs_escape(c) {
        seq!['\\', c]
    } else {
        seq![c]
    }
}

/// The fragment as it stands inside a double-quoted predicate string.
pub open spec fn escape_quoted(s: Seq<char>) -> Seq<char>
    decreases s.len(),
{
    if s.len() == 0 {
        seq![]
    } else {
        escape_char(s[0]) + escape_quoted(s.skip(1))
    }
}

/// What the native parser reads back from the inside of a quoted string.
pub open spec fn unescape_quoted(s: Seq<char>) -> Seq<char>
    decreases s.len(),
{
    if s.len() == 0 {
        seq![]
    } else if s[0] == '\\' && s.len() >= 2 {
        seq![s[1]] + unescape_quoted(s.skip(2))
    } else {
        seq![s[0]] + unescape_quoted(s.skip(1))
    }
}

/// The inside of a quoted string that the quote does not end early: every
/// backslash escapes the character after it, and no quote stands alone.
pub open spec fn is_quoted_body(s: Seq<char>) -> bool
    decreases s.len(),
{
    if s.len() == 0 {
        true
    } else if s[0] == '\\' {
        s.len() >= 2 && is_quoted_body(s.skip(2))
    } else {
        s[0] != '"' && is_quoted_body(s.skip(1))
    }
}

/// The inside of the quoted name pattern: the fragment, anywhere in the name.
pub open spec fn quoted_pattern(fragment: Seq<char>) -> Seq<char> {
    seq!['*'] + escape_quoted(fragment) + seq!['*']
}

/// The predicate for a fragment.
pub open spec fn predicate_text(fragment: Seq<char>) -> Seq<char> {
    FILE_TYPE_FILTER@ + seq!['"'] + quoted_pattern(fragment) + seq!['"'] + MATCH_MODIFIERS@
}

/// Escapes the fragment for use inside a double-quoted predicate string.
/// The native wildcards `*` and `?` keep their meaning.
pub fn escape_fragment(fragment: &str) -> (r: String)
    ensures
        r@ == escape_quoted(fragment@),
{
    let n = fragment.unicode_len();
    let mut out = String::new();
    let mut i: usize = 0;
    assert(fragment@.skip(0) =~= fragment@);
    assert(out@ + escape_quoted(fragment@) =~= escape_quoted(fragment@));
    while i < n
        invariant
            n == fragment@.len(),
            0 <= i <= n,
            out@ + escape_quoted(fragment@.skip(i as int)) == escape_quoted(fragment@),
        decreases n - i,
    {
        let c = fragment.get_char(i);
        let ghost rest = fragment@.skip(i as int);
        assert(rest[0] == c);
        if c == '"' || c == '\\' {
            push_char(&mut out, '\\');
        }
        push_char(&mut out, c);
        assert(rest.skip(1) =~= fragment@.skip(i + 1));
        assert(out@ + escape_quoted(fragment@.skip(i + 1)) =~= escape_quoted(fragment@));
        i = i + 1;
    }
    assert(fragment@.skip(n as int) =~= Seq::<char>::empty());
    assert(out@ + Seq::<char>::empty() =~= out@);
    out
}

/// Builds the metadata predicate for a name fragment. A fragment that holds
/// a nul character cannot reach the native layer and is refused.
pub fn search_predicate(fragment: &str) -> (r: Result<String, SearchLocalFileError>)
    ensures
        has_nul(fragment@) <==> r is Err,
        r matches Ok(p) ==> p@ == predicate_text(fragment@),
        r matches Err(e) ==> e matches SearchLocalFileError::CreateCString(_),
{
    if contains_nul(fragment) {
        return Err(SearchLocalFileError::CreateCString(NUL_MESSAGE.to_string()));
    }
    let escaped = escape_fragment(fragment);
    let mut p = FILE_TYPE_FILTER.to_string();
    push_char(&mut p, '"');
    push_char(&mut p, '*');
    p.append(escaped.as_str());
    push_char(&mut p, '*');
    push_char(&mut p, '"');
    p.append(MATCH_MODIFIERS);
    assert(p@ =~= predicate_text(fragment@));
    Ok(p)
}

proof fn lemma_escape_concat(c: char, rest: Seq<char>)
    ensures
        is_quoted_body(rest) ==> is_quoted_body(escape_char(c) + rest),
        unescape_quoted(escape_char(c) + rest) == seq![c] + unescape_quoted(rest),
{
    let e = escape_char(c) + rest;
    if needs_escape(c) {
        assert(e.skip(2) =~= rest);
    } else {
        assert(e.skip(1) =~= rest);
    }
}

/// A well-quoted text may be followed by any other: the quote state after it
/// is the same as at its start.
proof fn lemma_quoted_concat(a: Seq<char>, b: Seq<char>)
    requires
        is_quoted_body(a),
    ensures
        is_quoted_body(a + b) == is_quoted_body(b),
        unescape_quoted(a + b) == unescape_quoted(a) + unescape_quoted(b),
    decreases a.len(),
{
    if a.len() == 0 {
        assert(a + b =~= b);
        assert(unescape_quoted(a) + unescape_quoted(b) =~= unescape_quoted(b));
    } else if a[0] == '\\' {
        assert((a + b).skip(2) =~= a.skip(2) + b);
        lemma_quoted_concat(a.skip(2), b);
        assert(unescape_quoted(a + b) =~= unescape_quoted(a) + unescape_quoted(b));
    } else {
        assert((a + b).skip(1) =~= a.skip(1) + b);
        lemma_quoted_concat(a.skip(1), b);
        assert(unescape_quoted(a + b) =~= unescape_quoted(a) + unescape_quoted(b));
    }
}

/// Escaping is undone exactly by the native reading of a quoted string, and
/// what it yields never ends the quote early.
pub proof fn lemma_escape_round_trip(s: Seq<char>)
    ensures
        is_quoted_body(escape_quoted(s)),
        unescape_quoted(escape_quoted(s)) == s,
    decreases s.len(),
{
    if s.len() > 0 {
        lemma_escape_round_trip(s.skip(1));
        lemma_escape_concat(s[0], escape_quoted(s.skip(1)));
        assert(seq![s[0]] + s.skip(1) =~= s);
    } else {
        assert(unescape_quoted(seq![]) =~= s);
    }
}

/// Every fragment without a nul character gives a predicate whose name
/// pattern is one quoted string: it is opened after the file-type filter,
/// nothing in the fragment closes it early, it is closed right before the
/// match modifiers, and the native reading of it gives back the fragment
/// between two wildcards.
pub proof fn lemma_predicate_well_formed(fragment: Seq<char>)
    requires
        !has_nul(fragment),
    ensures
        predicate_text(fragment) == FILE_TYPE_FILTER@ + seq!['"'] + quoted_pattern(fragment) + seq![
            '"',
        ] + MATCH_MODIFIERS@,
        is_quoted_body(quoted_pattern(fragment)),
        unescape_quoted(quoted_pattern(fragment)) == seq!['*'] + fragment + seq!['*'],
{
    let star = seq!['*'];
    let e = escape_quoted(fragment);
    lemma_escape_round_trip(fragment);
    assert(star[0] == '*');
    assert(star.skip(1) =~= Seq::<char>::empty());
    assert(is_quoted_body(star.skip(1)));
    assert(unescape_quoted(star.skip(1)) =~= Seq::<char>::empty());
    assert(is_quoted_body(star));
    assert(unescape_quoted(star) =~= star);
    lemma_quoted_concat(e, star);
    lemma_quoted_concat(star, e + star);
    assert(quoted_pattern(fragment) =~= star + (e + star));
    assert(seq!['*'] + fragment + seq!['*'] =~= star + (fragment + star));
}

/// The process-wide slot for the metadata query in flight. A query is named
/// by its native handle. Each query that enters the slot leaves it once:
/// either displaced by a newer one, which the caller must then stop, or
/// taken out when its completion notice arrives.
pub struct QueryRegistry {
    slot: Option<usize>,
    entered: Ghost<Seq<usize>>,
    left: Ghost<Seq<usize>>,
}

impl QueryRegistry {
    /// The query in flight.
    pub closed spec fn current(&self) -> Option<usize> {
        self.slot
    }

    /// Every query that ever entered the slot, in order.
    pub closed spec fn entered(&self) -> Seq<usize> {
        self.entered@
    }

    /// Every query that left the slot, in order.
    pub closed spec fn left(&self) -> Seq<usize> {
        self.left@
    }

    /// How many queries are in the slot: entered and not yet left.
    pub open spec fn live_count(&self) -> int {
        self.entered().len() - self.left().len()
    }

    pub open spec fn wf(&self) -> bool {
        &&& self.current() is None ==> self.live_count() == 0
        &&& self.current() matches Some(q) ==> self.live_count() == 1 && self.entered().last() == q
    }

    /// What starting the query `q` does to the slot, and what it hands back
    /// to stop.
    pub open spec fn start_post(pre: Self, post: Self, q: usize, displaced: Option<usize>) -> bool {
        &&& post.current() == Some(q)
        &&& displaced == pre.current()
        &&& post.entered() == pre.entered().push(q)
        &&& post.left() == (match displaced {
            Some(p) => pre.left().push(p),
            None => pre.left(),
        })
    }

    /// What the completion notice does to the slot.
    pub open spec fn finish_post(pre: Self, post: Self, taken: Option<usize>) -> bool {
        &&& post.current() is None
        &&& taken == pre.current()
        &&& post.entered() == pre.entered()
        &&& post.left() == (match taken {
            Some(p) => pre.left().push(p),
            None => pre.left(),
        })
    }

    pub fn new() -> (r: Self)
        ensures
            r.wf(),
            r.current() is None,
            r.entered().len() == 0,
            r.left().len() == 0,
    {
        QueryRegistry { slot: None, entered: Ghost(Seq::empty()), left: Ghost(Seq::empty()) }
    }

    /// The query in flight.
    pub fn in_flight(&self) -> (r: Option<usize>)
        ensures
            r == self.current(),
    {
        self.slot
    }

    /// Puts `q` in the slot and hands back the query it displaces, which the
    /// caller stops before it starts `q`.
    pub fn start(&mut self, q: usize) -> (displaced: Option<usize>)
        requires
            old(self).wf(),
        ensures
            final(self).wf(),
            Self::start_post(*old(self), *final(self), q, displaced),
    {
        let displaced = self.slot;
        proof {
            if let Some(p) = displaced {
                self.left@ = self.left@.push(p);
            }
            self.entered@ = self.entered@.push(q);
        }
        self.slot = Some(q);
        displaced
    }

    /// Empties the slot when a completion notice arrives, and hands back the
    /// query that the caller stops.
    pub fn finish(&mut self) -> (taken: Option<usize>)
        requires
            old(self).wf(),
        ensures
            final(self).wf(),
            Self::finish_post(*old(self), *final(self), taken),
    {
        let taken = self.slot;
        proof {
            if let Some(p) = taken {
                self.left@ = self.left@.push(p);
            }
        }
        self.slot = None;
        taken
    }
}

/// A query started while another is in flight displaces it: the first is
/// handed back to be stopped, the slot holds the second alone, and after the
/// completion notice no query is left in it.
pub proof fn lemma_second_start_preempts(
    r0: QueryRegistry,
    r1: QueryRegistry,
    r2: QueryRegistry,
    r3: QueryRegistry,
    first: usize,
    second: usize,
    d1: Option<usize>,
    d2: Option<usize>,
    taken: Option<usize>,
)
    requires
        r0.wf(),
        QueryRegistry::start_post(r0, r1, first, d1),
        QueryRegistry::start_post(r1, r2, second, d2),
        QueryRegistry::finish_post(r2, r3, taken),
    ensures
        d2 == Some(first),
        r2.current() == Some(second),
        r2.live_count() == 1,
        taken == Some(second),
        r3.current() is None,
        r3.live_count() == 0,
{
}

/// A found file: its name, its path, and its change date.
pub type SearchData = (String, String, String);

pub type SearchLocalFileResult<T> = Result<T, SearchLocalFileError>;

#[derive(Clone, Copy, Debug, PartialEq, Eq, Structural)]
pub enum MetadataStage {
    CreateQuery,
    AddObserver,
    RunQuery,
    ReadCount,
    ReadItem,
    Teardown,
    Finished,
}

/// The next native step that the caller performs.
pub enum MetadataStep {
    /// Create a metadata query with this predicate.
    CreateQuery(String),
    /// Register the completion observer for the query.
    AddObserver,
    /// Put the query in the registry, stop the query it displaces, start it,
    /// and run the event loop until its completion notice.
    RunQuery,
    /// Count the query's results.
    ReadCount,
    /// Read the name, path and change date of the result at this index.
    ReadItem(usize),
    /// Release the resource of this kind that was acquired last.
    Release(Resource),
    /// The search is over: read its outcome.
    Finish,
}

/// How a step went.
pub enum MetadataEvent {
    Done,
    /// How many results the native query holds.
    Count(usize),
    /// The fields of one result.
    Item(SearchData),
}

/// One run of the metadata-query protocol.
pub struct MetadataSearch {
    stage: MetadataStage,
    ledger: Ledger,
    records: Vec<SearchData>,
    to_read: usize,
    error: Option<SearchLocalFileError>,
    cap: usize,
}

impl MetadataSearch {
    pub closed spec fn stage(&self) -> MetadataStage {
        self.stage
    }

    pub closed spec fn ledger(&self) -> Ledger {
        self.ledger
    }

    /// The results read so far, in the native order.
    pub closed spec fn records(&self) -> Seq<SearchData> {
        self.records@
    }

    /// How many results are read: the native count, but no more than the cap.
    pub closed spec fn to_read(&self) -> usize {
        self.to_read
    }

    pub closed spec fn error(&self) -> Option<SearchLocalFileError> {
        self.error
    }

    pub closed spec fn cap(&self) -> usize {
        self.cap
    }

    pub open spec fn held_for(s: MetadataStage) -> Seq<Resource> {
        match s {
            MetadataStage::CreateQuery => seq![],
            MetadataStage::AddObserver => seq![Resource::MetadataQuery],
            _ => seq![Resource::MetadataQuery, Resource::Observer],
        }
    }

    pub open spec fn wf(&self) -> bool {
        &&& self.ledger().wf()
        &&& 0 < self.cap()
        &&& self.to_read() <= self.cap()
        &&& self.records().len() <= self.to_read()
        &&& self.stage() == MetadataStage::ReadItem ==> self.records().len() < self.to_read()
        &&& (self.stage() == MetadataStage::CreateQuery || self.stage() == MetadataStage::AddObserver
            || self.stage() == MetadataStage::RunQuery || self.stage() == MetadataStage::ReadCount)
            ==> self.records().len() == 0
        &&& self.stage() != MetadataStage::Teardown && self.stage() != MetadataStage::Finished
            ==> self.ledger().held() == Self::held_for(self.stage())
        &&& self.stage() == MetadataStage::Teardown ==> self.ledger().held().len() > 0
        &&& self.stage() == MetadataStage::Finished ==> self.ledger().held().len() == 0
        &&& self.error() is Some ==> self.stage() == MetadataStage::Finished && self.records().len() == 0
    }

    pub open spec fn is_finished(&self) -> bool {
        self.stage() == MetadataStage::Finished
    }

    /// Starts a search for the name fragment, reading at most `cap` results.
    /// A fragment that the native layer cannot take is refused at once: no
    /// native step is asked for and no resource is acquired.
    pub fn new(fragment: &str, cap: usize) -> (r: (Self, MetadataStep))
        requires
            cap > 0,
        ensures
            r.0.wf(),
            r.0.cap() == cap,
            r.0.records().len() == 0,
            r.0.ledger().log().len() == 0,
            has_nul(fragment@) ==> {
                &&& r.0.is_finished()
                &&& r.1 is Finish
                &&& r.0.error() matches Some(SearchLocalFileError::CreateCString(_))
            },
            !has_nul(fragment@) ==> {
                &&& r.0.stage() == MetadataStage::CreateQuery
                &&& r.0.error() is None
                &&& r.1 matches MetadataStep::CreateQuery(p) && p@ == predicate_text(fragment@)
            },
    {
        match search_predicate(fragment) {
            Ok(p) => {
                let search = MetadataSearch {
                    stage: MetadataStage::CreateQuery,
                    ledger: Ledger::new(),
                    records: Vec::new(),
                    to_read: 0,
                    error: None,
                    cap,
                };
                assert(search.ledger().held() =~= Self::held_for(MetadataStage::CreateQuery));
                (search, MetadataStep::CreateQuery(p))
            },
            Err(e) => {
                let search = MetadataSearch {
                    stage: MetadataStage::Finished,
                    ledger: Ledger::new(),
                    records: Vec::new(),
                    to_read: 0,
                    error: Some(e),
                    cap,
                };
                (search, MetadataStep::Finish)
            },
        }
    }

    /// What a step does to the ledger: the query and then its observer are
    /// acquired, teardown releases the resource acquired last, and nothing
    /// else acquires or releases anything.
    pub open spec fn ledger_follows(pre: Self, post: Self) -> bool {
        let (a, b) = (pre.ledger(), post.ledger());
        match pre.stage() {
            MetadataStage::CreateQuery => acquired(a, b, Resource::MetadataQuery),
            MetadataStage::AddObserver => acquired(a, b, Resource::Observer),
            MetadataStage::Teardown => released_last(a, b),
            _ => untouched(a, b),
        }
    }

    fn teardown(&mut self) -> (step: MetadataStep)
        requires
            old(self).ledger().wf(),
            old(self).error() is None,
            0 < old(self).cap(),
            old(self).to_read() <= old(self).cap(),
            old(self).records().len() <= old(self).to_read(),
        ensures
            final(self).wf(),
            final(self).ledger() == old(self).ledger(),
            final(self).records() == old(self).records(),
            final(self).to_read() == old(self).to_read(),
            final(self).cap() == old(self).cap(),
            final(self).error() is None,
            (step is Finish) <==> final(self).is_finished(),
            step matches MetadataStep::Release(k) ==> final(self).ledger().held().len() > 0
                && final(self).ledger().held().last() == k,
            !(step is Finish) ==> step is Release,
    {
        match self.ledger.top() {
            Some(k) => {
                self.stage = MetadataStage::Teardown;
                MetadataStep::Release(k)
            },
            None => {
                self.stage = MetadataStage::Finished;
                MetadataStep::Finish
            },
        }
    }

    /// Takes the outcome of the last step and hands back the next one.
    pub fn advance(&mut self, ev: MetadataEvent) -> (step: MetadataStep)
        requires
            old(self).wf(),
        ensures
            final(self).wf(),
            final(self).cap() == old(self).cap(),
            (step is Finish) <==> final(self).is_finished(),
            step matches MetadataStep::Release(k) ==> final(self).ledger().held().len() > 0
                && final(self).ledger().held().last() == k,
            old(self).is_finished() ==> *final(self) == *old(self),
            Self::ledger_follows(*old(self), *final(self)),
            // the error is the one the search started with
            final(self).error() == old(self).error(),
            // how many results are read is fixed once the count is known
            old(self).stage() != MetadataStage::ReadCount ==> final(self).to_read() == old(self).to_read(),
            old(self).stage() == MetadataStage::CreateQuery ==> step is AddObserver,
            old(self).stage() == MetadataStage::AddObserver ==> step is RunQuery,
            old(self).stage() == MetadataStage::RunQuery ==> step is ReadCount,
            // the results read are the native count, cut at the cap
            old(self).stage() == MetadataStage::ReadCount ==> (ev matches MetadataEvent::Count(n) ==> {
                &&& final(self).to_read() == (if n < old(self).cap() { n } else { old(self).cap() })
                &&& n > 0 ==> step == MetadataStep::ReadItem(0)
                &&& n == 0 ==> step is Release
            }),
            old(self).stage() == MetadataStage::ReadItem ==> (ev matches MetadataEvent::Item(d) ==> {
                &&& final(self).records() == old(self).records().push(d)
                &&& final(self).records().len() < final(self).to_read() ==> step == MetadataStep::ReadItem(
                    final(self).records().len() as usize,
                )
            }),
            final(self).records() == old(self).records() || (old(self).stage() == MetadataStage::ReadItem
                && ev is Item),
            old(self).stage() == MetadataStage::Teardown ==> final(self).ledger().held() == old(self).ledger().held().drop_last(),
            step matches MetadataStep::ReadItem(i) ==> i == final(self).records().len() && i < final(self).to_read(),
    {
        match self.stage {
            MetadataStage::Finished => MetadataStep::Finish,
            MetadataStage::CreateQuery => {
                self.ledger.acquire(Resource::MetadataQuery);
                self.stage = MetadataStage::AddObserver;
                assert(self.ledger().held() =~= Self::held_for(MetadataStage::AddObserver));
                MetadataStep::AddObserver
            },
            MetadataStage::AddObserver => {
                self.ledger.acquire(Resource::Observer);
                self.stage = MetadataStage::RunQuery;
                assert(self.ledger().held() =~= Self::held_for(MetadataStage::RunQuery));
                MetadataStep::RunQuery
            },
            MetadataStage::RunQuery => {
                self.stage = MetadataStage::ReadCount;
                MetadataStep::ReadCount
            },
            MetadataStage::ReadCount => {
                let n = match ev {
                    MetadataEvent::Count(n) => n,
                    _ => 0,
                };
                self.to_read = if n < self.cap { n } else { self.cap };
                if self.to_read == 0 {
                    self.teardown()
                } else {
                    self.stage = MetadataStage::ReadItem;
                    MetadataStep::ReadItem(0)
                }
            },
            MetadataStage::ReadItem => match ev {
                MetadataEvent::Item(d) => {
                    self.records.push(d);
                    if self.records.len() < self.to_read {
                        MetadataStep::ReadItem(self.records.len())
                    } else {
                        self.teardown()
                    }
                },
                _ => self.teardown(),
            },
            MetadataStage::Teardown => {
                self.ledger.release_last();
                self.teardown()
            },
        }
    }

    pub fn is_done(&self) -> (r: bool)
        ensures
            r == self.is_finished(),
    {
        self.stage == MetadataStage::Finished
    }

    /// The outcome of a finished search: the construction error, or the
    /// results read, never more than the cap.
    pub fn outcome(self) -> (r: SearchLocalFileResult<Vec<SearchData>>)
        requires
            self.wf(),
            self.is_finished(),
        ensures
            self.error() matches Some(e) ==> r == Err::<Vec<SearchData>, SearchLocalFileError>(e),
            self.error() is None ==> (r matches Ok(v) && v@ == self.records()),
            r matches Ok(v) ==> v@.len() <= self.cap(),
    {
        match self.error {
            Some(e) => Err(e),
            None => Ok(self.records),
        }
    }
}

/// Whatever path a metadata search took, once it is finished the query and
/// its observer have each been released as many times as they were acquired.
pub proof fn lemma_finished_metadata_search_balanced(s: MetadataSearch)
    requires
        s.wf(),
        s.is_finished(),
    ensures
        forall|k: Resource| acquisitions(s.ledger().log(), k) == releases(s.ledger().log(), k),
{
    lemma_clear_ledger_balanced(s.ledger());
}

} // verus!
