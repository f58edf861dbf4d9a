//! Accounting of native resources: every handle that a search acquires is
//! held on a stack and released from its top, so teardown releases each
//! handle once, in the reverse order of acquisition.
use vstd::prelude::*;

verus! {

/// The kinds of native resource that a search holds.
#[derive(Clone, Copy, Debug, PartialEq, Eq, Structural)]
pub enum Resource {
    /// The process's COM/OLE runtime, initialized for the call.
    OleRuntime,
    SearchManager,
    Catalog,
    QueryHelper,
    DataInitializer,
    /// The data source as the initializer hands it over.
    DataSourceObject,
    /// The data source's IDBInitialize interface.
    DataSource,
    /// The data source's IDBCreateSession interface.
    SessionFactory,
    Session,
    /// The session's IDBCreateCommand interface.
    CommandFactory,
    /// The command as the session creates it.
    CommandObject,
    /// The command's ICommandText interface.
    Command,
    Rowset,
    /// The accessor interface of a rowset.
    AccessorInterface,
    /// A fetched row handle.
    Row,
    /// A column accessor handle.
    Accessor,
    /// A native metadata query object.
    MetadataQuery,
    /// A completion observer registered with the notification center.
    Observer,
}

/// One acquire or release call.
pub enum Use {
    Acquire(Resource),
    Release(Resource),
}

/// How many times the log acquires a resource of kind `k`.
pub open spec fn acquisitions(log: Seq<Use>, k: Resource) -> nat
    decreases log.len(),
{
    if log.len() == 0 {
        0
    } else {
        acquisitions(log.drop_last(), k) + (if log.last() == Use::Acquire(k) { 1nat } else { 0nat })
    }
}

/// How many times the log releases a resource of kind `k`.
pub open spec fn releases(log: Seq<Use>, k: Resource) -> nat
    decreases log.len(),
{
    if log.len() == 0 {
        0
    } else {
        releases(log.drop_last(), k) + (if log.last() == Use::Release(k) { 1nat } else { 0nat })
    }
}

/// How many resources of kind `k` are held.
pub open spec fn held_count(held: Seq<Resource>, k: Resource) -> nat
    decreases held.len(),
{
    if held.len() == 0 {
        0
    } else {
        held_count(held.drop_last(), k) + (if held.last() == k { 1nat } else { 0nat })
    }
}

/// `post` is `pre` after acquiring one resource of kind `k`.
pub open spec fn acquired(pre: Ledger, post: Ledger, k: Resource) -> bool {
    &&& post.held() == pre.held().push(k)
    &&& post.log() == pre.log().push(Use::Acquire(k))
}

/// `post` is `pre` after releasing the resource acquired last.
pub open spec fn released_last(pre: Ledger, post: Ledger) -> bool {
    &&& pre.held().len() > 0
    &&& post.held() == pre.held().drop_last()
    &&& post.log() == pre.log().push(Use::Release(pre.held().last()))
}

/// Nothing was acquired or released between `pre` and `post`.
pub open spec fn untouched(pre: Ledger, post: Ledger) -> bool {
    &&& post.held() == pre.held()
    &&& post.log() == pre.log()
}

pub struct Ledger {
    held: Vec<Resource>,
    log: Ghost<Seq<Use>>,
}

impl Ledger {
    /// The resources held, oldest first.
    pub closed spec fn held(&self) -> Seq<Resource> {
        self.held@
    }

    /// Every acquire and release call, in order.
    pub closed spec fn log(&self) -> Seq<Use> {
        self.log@
    }

    /// Each kind is acquired as often as it is released, plus what is held.
    pub open spec fn wf(&self) -> bool {
        forall|k: Resource|
            #[trigger] acquisitions(self.log(), k) == releases(self.log(), k) + held_count(
                self.held(),
                k,
            )
    }

    pub fn new() -> (r: Self)
        ensures
            r.wf(),
            r.held().len() == 0,
            r.log().len() == 0,
    {
        Ledger { held: Vec::new(), log: Ghost(Seq::empty()) }
    }

    /// Records that a resource of kind `k` was acquired.
    pub fn acquire(&mut self, k: Resource)
        requires
            old(self).wf(),
        ensures
            final(self).wf(),
            final(self).held() == old(self).held().push(k),
            final(self).log() == old(self).log().push(Use::Acquire(k)),
    {
        let ghost pre_log = self.log@;
        let ghost pre_held = self.held@;
        self.held.push(k);
        proof {
            self.log@ = self.log@.push(Use::Acquire(k));
            assert(self.log@.drop_last() =~= pre_log);
            assert(self.held@.drop_last() =~= pre_held);
            assert forall|j: Resource|
                #[trigger] acquisitions(self.log@, j) == releases(self.log@, j) + held_count(
                    self.held@,
                    j,
                ) by {
                assert(acquisitions(old(self).log(), j) == releases(old(self).log(), j) + held_count(old(self).held(), j));
            }
        }
    }

    /// The resource that is released next: the one acquired last.
    pub fn top(&self) -> (r: Option<Resource>)
        ensures
            self.held().len() == 0 ==> r is None,
            self.held().len() > 0 ==> r == Some(self.held().last()),
    {
        if self.held.len() == 0 {
            None
        } else {
            Some(self.held[self.held.len() - 1])
        }
    }

    /// Records the release of the resource acquired last, and names it.
    pub fn release_last(&mut self) -> (r: Option<Resource>)
        requires
            old(self).wf(),
        ensures
            final(self).wf(),
            old(self).held().len() == 0 ==> r is None && *final(self) == *old(self),
            old(self).held().len() > 0 ==> {
                &&& r == Some(old(self).held().last())
                &&& final(self).held() == old(self).held().drop_last()
                &&& final(self).log() == old(self).log().push(Use::Release(old(self).held().last()))
            },
    {
        if self.held.len() == 0 {
            return None;
        }
        let ghost pre_log = self.log@;
        let ghost pre_held = self.held@;
        let k = self.held.pop().unwrap();
        proof {
            self.log@ = self.log@.push(Use::Release(k));
            assert(self.log@.drop_last() =~= pre_log);
            assert(pre_held.drop_last() =~= self.held@);
            assert forall|j: Resource|
                #[trigger] acquisitions(self.log@, j) == releases(self.log@, j) + held_count(
                    self.held@,
                    j,
                ) by {
                assert(acquisitions(old(self).log(), j) == releases(old(self).log(), j) + held_count(old(self).held(), j));
            }
        }
        Some(k)
    }

    pub fn is_clear(&self) -> (r: bool)
        ensures
            r == (self.held().len() == 0),
    {
        self.held.len() == 0
    }
}

/// Once nothing is held, every kind of resource has been released exactly as
/// many times as it was acquired, whatever path the calls took.
pub proof fn lemma_clear_ledger_balanced(l: Ledger)
    requires
        l.wf(),
        l.held().len() == 0,
    ensures
        forall|k: Resource| acquisitions(l.log(), k) == releases(l.log(), k),
{
    assert forall|k: Resource| acquisitions(l.log(), k) == releases(l.log(), k) by {
        assert(held_count(l.held(), k) == 0);
    }
}

} // verus!
