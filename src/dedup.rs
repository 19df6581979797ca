use vstd::prelude::*;
use crate::status_set::StatusSet;

verus! {

/// The URLs imported for one hashtag that were still visible remotely at the
/// last prune.
pub struct DedupTracker {
    imported: StatusSet,
}

impl View for DedupTracker {
    type V = Set<Seq<char>>;

    closed spec fn view(&self) -> Set<Seq<char>> {
        self.imported@
    }
}

impl DedupTracker {
    pub closed spec fn wf(&self) -> bool {
        self.imported.wf()
    }

    pub fn new() -> (r: DedupTracker)
        ensures
            r.wf(),
            r@ == Set::<Seq<char>>::empty(),
    {
        DedupTracker { imported: StatusSet::new() }
    }

    pub fn mark_imported(&mut self, url: String)
        requires
            old(self).wf(),
        ensures
            final(self).wf(),
            final(self)@ == old(self)@.insert(url@),
    {
        self.imported.insert(url);
    }

    pub fn was_imported(&self, url: &String) -> (r: bool)
        ensures
            r == self@.contains(url@),
    {
        self.imported.contains(url)
    }

    /// Forgets every URL that is not in `seen`.
    pub fn retain_only(&mut self, seen: &StatusSet)
        requires
            old(self).wf(),
        ensures
            final(self).wf(),
            final(self)@ == old(self)@.intersect(seen@),
            final(self)@.len() <= seen@.len(),
    {
        self.imported.retain_in(seen);
        proof {
            lemma_retain_bounded(old(self)@, *seen);
        }
    }

    pub fn len(&self) -> (r: usize)
        requires
            self.wf(),
        ensures
            r == self@.len(),
    {
        self.imported.len()
    }
}

/// After a prune against the remote set of a pass, the memory holds no more
/// URLs than that set.
pub proof fn lemma_retain_bounded(imported: Set<Seq<char>>, remote: StatusSet)
    ensures
        imported.intersect(remote@).len() <= remote@.len(),
{
    remote.lemma_view();
    vstd::set_lib::lemma_len_subset(imported.intersect(remote@), remote@);
}

/// Pruning twice against the same set leaves what pruning once leaves.
pub proof fn lemma_retain_idempotent(imported: Set<Seq<char>>, seen: Set<Seq<char>>)
    ensures
        imported.intersect(seen).intersect(seen) == imported.intersect(seen),
{
    assert(imported.intersect(seen).intersect(seen) =~= imported.intersect(seen));
}


/// A change of the dedup memory: a successful import is remembered, or the
/// memory is pruned to the statuses a pass saw remotely.
pub enum MemoryChange {
    Mark(Seq<char>),
    Prune(Set<Seq<char>>),
}

/// The memory after the changes, in order.
pub open spec fn after_changes(memory: Set<Seq<char>>, changes: Seq<MemoryChange>) -> Set<
    Seq<char>,
>
    decreases changes.len(),
{
    if changes.len() == 0 {
        memory
    } else {
        let next = match changes[0] {
            MemoryChange::Mark(u) => memory.insert(u),
            MemoryChange::Prune(seen) => memory.intersect(seen),
        };
        after_changes(next, changes.drop_first())
    }
}

/// In the model of the dedup memory as a sequence of marks and prunes (what
/// `DedupTracker::mark_imported` and `DedupTracker::retain_only` do to its
/// view), a remembered status stays remembered as long as every prune's set
/// still holds it.
pub proof fn lemma_imported_stays(memory: Set<Seq<char>>, url: Seq<char>, changes: Seq<MemoryChange>)
    requires
        memory.contains(url),
        forall|k: int|
            0 <= k < changes.len() ==> (#[trigger] changes[k] matches MemoryChange::Prune(seen)
                ==> seen.contains(url)),
    ensures
        after_changes(memory, changes).contains(url),
    decreases changes.len(),
{
    if changes.len() > 0 {
        let next = match changes[0] {
            MemoryChange::Mark(u) => memory.insert(u),
            MemoryChange::Prune(seen) => memory.intersect(seen),
        };
        assert(changes[0] matches MemoryChange::Prune(seen) ==> seen.contains(url));
        assert forall|k: int| 0 <= k < changes.drop_first().len() implies (
        #[trigger] changes.drop_first()[k] matches MemoryChange::Prune(seen) ==> seen.contains(url)) by {
            assert(changes.drop_first()[k] == changes[k + 1]);
        }
        lemma_imported_stays(next, url, changes.drop_first());
    }
}

} // verus!
