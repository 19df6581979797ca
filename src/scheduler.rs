use vstd::prelude::*;
use crate::dedup::DedupTracker;
use crate::engine::{
    is_fresh, Failure, Fetch, Hashtag, HashtagPass, LocalServer, Phase, Stage, Step, LOCAL_PAGE,
    REMOTE_PAGE,
};
use crate::status_set::views_of;
use crate::limiter::Limiters;

verus! {

/// The rest between two passes over all hashtags, in nanoseconds.
pub const REST_NANOS: u64 = 5 * 60 * 1_000_000_000;

/// What the caller is to do next.
pub enum Action {
    /// Sleep this many nanoseconds, then ask again.
    Wait(u64),
    /// Fetch a timeline for the hashtag of this index and report the result
    /// to `fetched` or `fetch_failed`.
    Fetch(usize, Fetch),
    /// Import this URL, found for the hashtag of this index, and report the
    /// outcome to `imported`.
    Import(usize, String),
    /// A candidate of the hashtag of this index is left for a later pass.
    Skipped(usize, String, Failure),
    /// The pass over the hashtag of this index is over; `true` when a fetch
    /// failure cut it short.
    HashtagDone(usize, bool),
    /// A pass over all hashtags is over: rest this many nanoseconds, then ask
    /// again.
    Rest(u64),
}

/// The budgets keep their quotas and the query budget its compactions; the
/// records of permits asked and the upstream budget's compactions may differ.
pub open spec fn unchanged_but_logs_or_compacted(a: Limiters, b: Limiters) -> bool {
    &&& b.queries.burst() == a.queries.burst() && b.queries.period_secs() == a.queries.period_secs()
    &&& b.upstreams.burst() == a.upstreams.burst() && b.upstreams.period_secs()
        == a.upstreams.period_secs()
    &&& b.imports.burst() == a.imports.burst() && b.imports.period_secs() == a.imports.period_secs()
    &&& b.passes.burst() == a.passes.burst() && b.passes.period_secs() == a.passes.period_secs()
    &&& b.queries.compactions() == a.queries.compactions()
}

/// Where the scheduler stands between passes.
#[derive(PartialEq, Eq, Structural, Clone, Copy, Debug)]
pub enum Round {
    /// A pass over the hashtag of the current index runs.
    Running,
    /// The last hashtag of the pass is done; the rest is to be handed out.
    Closing,
    /// The rest between passes has been handed out; a permit of the pass
    /// budget is to be taken next.
    Resting,
}

/// Drives passes over every hashtag, one after the other, for ever, and owns
/// the budgets and the dedup memory of each hashtag.
pub struct Scheduler {
    hashtags: Vec<Hashtag>,
    local: LocalServer,
    trackers: Vec<DedupTracker>,
    limiters: Limiters,
    current: usize,
    pass: HashtagPass,
    round: Round,
}

impl Scheduler {
    pub closed spec fn wf(&self) -> bool {
        &&& self.trackers.len() == self.hashtags.len()
        &&& forall|i: int| 0 <= i < self.trackers.len() ==> (#[trigger] self.trackers@[i]).wf()
        &&& self.pass.wf()
        &&& self.round == Round::Running ==> self.current < self.hashtags.len()
        &&& self.round == Round::Running ==> self.pass.sources() == views_of(
            self.hashtags@[self.current as int].sources@,
        )
        &&& self.round == Round::Running ==> self.pass.agrees_with(
            self.trackers@[self.current as int]@,
        )
    }

    /// What the dedup memory of the hashtag of index `i` holds.
    pub closed spec fn memory(&self, i: int) -> Set<Seq<char>> {
        self.trackers@[i]@
    }

    /// The hashtags, in the order they are visited.
    pub closed spec fn hashtag_list(&self) -> Seq<Hashtag> {
        self.hashtags@
    }

    pub closed spec fn local_server(&self) -> LocalServer {
        self.local
    }

    /// The rate budgets.
    pub closed spec fn limiters(&self) -> Limiters {
        self.limiters
    }

    pub closed spec fn count(&self) -> nat {
        self.hashtags@.len()
    }

    pub closed spec fn round(&self) -> Round {
        self.round
    }

    pub closed spec fn current(&self) -> int {
        self.current as int
    }

    /// The pass that runs over the current hashtag.
    pub closed spec fn pass(&self) -> HashtagPass {
        self.pass
    }

    pub fn new(hashtags: Vec<Hashtag>, local: LocalServer) -> (r: Scheduler)
        ensures
            r.wf(),
            r.count() == hashtags.len(),
            r.hashtag_list() == hashtags@,
            r.local_server() == local,
            forall|i: int| 0 <= i < r.count() ==> r.memory(i) == Set::<Seq<char>>::empty(),
            hashtags.len() > 0 ==> r.round() == Round::Running && r.current() == 0
                && r.pass().phase() == Phase::Source(0),
            hashtags.len() == 0 ==> r.round() == Round::Resting,
    {
        let mut trackers: Vec<DedupTracker> = Vec::new();
        let mut i: usize = 0;
        while i < hashtags.len()
            invariant
                i <= hashtags.len(),
                trackers.len() == i,
                forall|k: int| 0 <= k < i ==> (#[trigger] trackers@[k]).wf() && trackers@[k]@
                    == Set::<Seq<char>>::empty(),
            decreases hashtags.len() - i,
        {
            trackers.push(DedupTracker::new());
            i += 1;
        }
        let (pass, round) = if hashtags.len() > 0 {
            (HashtagPass::new(&hashtags[0]), Round::Running)
        } else {
            (HashtagPass::new(&Hashtag { name: String::new(), sources: Vec::new(), any: None }), Round::Resting)
        };
        Scheduler { hashtags, local, trackers, limiters: Limiters::new(), current: 0, pass, round }
    }

    pub fn hashtags(&self) -> (r: &Vec<Hashtag>)
        ensures
            r.len() == self.count(),
            r@ == self.hashtag_list(),
    {
        &self.hashtags
    }

    /// The pass over the current hashtag waits for a report from the caller.
    pub open spec fn awaiting(&self) -> bool {
        self.round() == Round::Running && self.pass().awaiting()
    }

    pub fn is_awaiting(&self) -> (r: bool)
        ensures
            r == self.awaiting(),
    {
        match self.round {
            Round::Running => self.pass.is_awaiting(),
            _ => false,
        }
    }

    /// Decides what to do next: the next step of the current hashtag's pass;
    /// after the last hashtag, the rest; after the rest, a permit of the pass
    /// budget, a compaction of the upstream budgets, and the first hashtag
    /// again.
    pub fn next(&mut self) -> (r: Action)
        requires
            old(self).wf(),
            !old(self).awaiting(),
        ensures
            final(self).wf(),
            final(self).count() == old(self).count(),
            final(self).hashtag_list() == old(self).hashtag_list(),
            final(self).local_server() == old(self).local_server(),
            unchanged_but_logs_or_compacted(old(self).limiters(), final(self).limiters()),
            old(self).round() == Round::Resting ==> {
                &&& final(self).limiters().passes.asks() == old(self).limiters().passes.asks() + 1
                &&& final(self).limiters().upstreams.compactions() == old(self).limiters().upstreams.compactions()
                    + (if r is Wait && final(self).round() == Round::Resting { 0int } else { 1int })
            },
            old(self).round() != Round::Resting ==> {
                &&& final(self).limiters().passes.asks() == old(self).limiters().passes.asks()
                &&& final(self).limiters().upstreams.compactions() == old(self).limiters().upstreams.compactions()
            },
            old(self).round() == Round::Closing ==> final(self).limiters() == old(self).limiters(),
            r matches Action::Fetch(_, f) ==> final(self).limiters().queries.asked() == old(
                self,
            ).limiters().queries.asked().push(f.server@),
            r is Import ==> final(self).limiters().queries.asked() == old(self).limiters().queries.asked().push(
                old(self).local_server().host@,
            ),
            old(self).round() == Round::Running && !(r is HashtagDone) ==> {
                &&& final(self).round() == Round::Running
                &&& final(self).current() == old(self).current()
                &&& final(self).pass().remote_set() == old(self).pass().remote_set()
                &&& final(self).pass().local_set() == old(self).pass().local_set()
                &&& final(self).pass().candidates() == old(self).pass().candidates()
            },
            forall|i: int, u: Seq<char>|
                0 <= i < old(self).count() && old(self).memory(i).contains(u) && old(
                    self,
                ).pass().remote_set().contains(u) ==> #[trigger] final(self).memory(i).contains(u),
            old(self).round() == Round::Running && old(self).pass().phase() is Aborted ==> (r matches Action::HashtagDone(i, true) && i == old(self).current()),
            old(self).round() == Round::Running && is_fresh(old(self).pass().phase()) && (forall|k: int|
                old(self).pass().phase()->Candidate_0 <= k < old(self).pass().candidates().len()
                    ==> old(self).memory(old(self).current()).contains(#[trigger] old(self).pass().candidates()[k]))
                ==> {
                &&& r matches Action::HashtagDone(i, false) && i == old(self).current()
                &&& final(self).memory(old(self).current()) == old(self).memory(old(self).current()).intersect(
                    old(self).pass().remote_set(),
                )
            },
            r matches Action::Fetch(i, f) ==> {
                ||| final(self).pass().phase() matches Phase::FetchingSource(k)
                    && f.server@ == views_of(final(self).hashtag_list()[i as int].sources@)[k as int]
                    && f.token@.len() == 0 && f.limit == REMOTE_PAGE
                ||| final(self).pass().phase() is FetchingLocal && f.server@ == final(self).local_server().host@
                    && f.token@ == final(self).local_server().token@ && f.limit == LOCAL_PAGE
            },
            forall|i: int|
                0 <= i < old(self).count() && !(r matches Action::HashtagDone(j, false) && j == i)
                    ==> #[trigger] final(self).memory(i) == old(self).memory(i),
            r matches Action::HashtagDone(i, false) ==> {
                ||| final(self).memory(i as int) == old(self).memory(i as int)
                ||| final(self).memory(i as int) == old(self).memory(i as int).intersect(
                    old(self).pass().remote_set(),
                )
            },
            r matches Action::Rest(n) ==> n == REST_NANOS && final(self).round() == Round::Resting,
            old(self).round() == Round::Closing ==> r is Rest,
            old(self).round() == Round::Resting ==> {
                ||| r is Wait && final(self).round() == Round::Resting
                ||| r is Rest && old(self).count() == 0
                ||| final(self).round() == Round::Running && final(self).current() == 0
            },
            r matches Action::HashtagDone(i, aborted) ==> {
                &&& old(self).round() == Round::Running
                &&& i == old(self).current()
                &&& aborted == (old(self).pass().phase() is Aborted)
                &&& i + 1 < old(self).count() ==> final(self).round() == Round::Running
                    && final(self).current() == i + 1 && final(self).pass().phase() == Phase::Source(0)
                &&& i + 1 == old(self).count() ==> final(self).round() == Round::Closing
            },
            r matches Action::Fetch(i, f) ==> i == final(self).current() && final(self).awaiting(),
            r matches Action::Import(i, u) ==> {
                &&& i == final(self).current()
                &&& final(self).awaiting()
                &&& !final(self).memory(i as int).contains(u@)
                &&& final(self).pass().remote_set().contains(u@)
                &&& !final(self).pass().local_set().contains(u@)
            },
            r matches Action::Skipped(i, u, why) ==> i == final(self).current()
                && !final(self).memory(i as int).contains(u@),
            !(r is Fetch || r is Import) ==> !final(self).awaiting(),
    {
        match self.round {
            Round::Closing => {
                self.round = Round::Resting;
                return Action::Rest(REST_NANOS);
            },
            Round::Resting => {
                match self.limiters.passes.check() {
                    Err(w) => {
                        return Action::Wait(w);
                    },
                    Ok(()) => {
                        self.limiters.upstreams.compact();
                        if self.hashtags.len() == 0 {
                            return Action::Rest(REST_NANOS);
                        }
                        self.current = 0;
                        self.pass = HashtagPass::new(&self.hashtags[0]);
                        self.round = Round::Running;
                    },
                }
            },
            Round::Running => {},
        }
        let i = self.current;
        let step = self.pass.next(&mut self.trackers[i], &mut self.limiters, &self.local);
        match step {
            Step::Wait(w) => Action::Wait(w),
            Step::Fetch(f) => Action::Fetch(i, f),
            Step::Import(u) => Action::Import(i, u),
            Step::Skipped(u, why) => Action::Skipped(i, u, why),
            Step::Done => {
                let aborted = self.pass.is_aborted();
                if i + 1 < self.hashtags.len() {
                    self.current = i + 1;
                    self.pass = HashtagPass::new(&self.hashtags[i + 1]);
                } else {
                    self.round = Round::Closing;
                }
                Action::HashtagDone(i, aborted)
            },
        }
    }

    /// Hands the statuses a fetch returned to the current pass. Where no fetch
    /// is outstanding nothing changes.
    pub fn fetched(&mut self, urls: Vec<String>)
        requires
            old(self).wf(),
        ensures
            final(self).wf(),
            final(self).count() == old(self).count(),
            final(self).current() == old(self).current(),
            final(self).round() == old(self).round(),
            forall|i: int| 0 <= i < old(self).count() ==> #[trigger] final(self).memory(i)
                == old(self).memory(i),
            final(self).awaiting() == (old(self).awaiting() && old(self).pass().phase() is Candidate),
            !(old(self).awaiting() && !(old(self).pass().phase() is Candidate)) ==> *final(self) == *old(self),
            old(self).round() == Round::Running && old(self).pass().phase() is FetchingSource
                ==> final(self).pass().remote_set() == old(self).pass().remote_set().union(
                views_of(urls@).to_set(),
            ),
            old(self).round() == Round::Running && old(self).pass().phase() is FetchingLocal ==> {
                &&& final(self).pass().local_set() == views_of(urls@).to_set()
                &&& final(self).pass().candidates().to_set() == final(self).pass().remote_set().difference(
                    final(self).pass().local_set(),
                )
            },
    {
        if let Round::Running = self.round {
            if self.pass.is_fetching() {
                self.pass.fetched(urls);
            }
        }
    }

    /// Tells the current pass that its fetch failed: the pass over this
    /// hashtag ends without a prune. Where no fetch is outstanding nothing
    /// changes.
    pub fn fetch_failed(&mut self)
        requires
            old(self).wf(),
        ensures
            final(self).wf(),
            final(self).count() == old(self).count(),
            final(self).current() == old(self).current(),
            final(self).round() == old(self).round(),
            forall|i: int| 0 <= i < old(self).count() ==> #[trigger] final(self).memory(i)
                == old(self).memory(i),
            final(self).awaiting() == (old(self).awaiting() && old(self).pass().phase() is Candidate),
            !(old(self).awaiting() && !(old(self).pass().phase() is Candidate)) ==> *final(self) == *old(self),
            old(self).awaiting() && !(old(self).pass().phase() is Candidate)
                ==> final(self).pass().phase() is Aborted,
    {
        if let Round::Running = self.round {
            if self.pass.is_fetching() {
                self.pass.fetch_failed();
            }
        }
    }

    /// Hands the outcome of the outstanding import to the current pass; a
    /// success is remembered for the current hashtag. Where no import is
    /// outstanding nothing changes.
    pub fn imported(&mut self, ok: bool)
        requires
            old(self).wf(),
        ensures
            final(self).wf(),
            final(self).count() == old(self).count(),
            final(self).current() == old(self).current(),
            final(self).round() == old(self).round(),
            final(self).awaiting() == (old(self).awaiting() && !(old(self).pass().phase() is Candidate)),
            !(old(self).awaiting() && old(self).pass().phase() is Candidate) ==> *final(self) == *old(self),
            forall|i: int|
                0 <= i < old(self).count() && i != old(self).current()
                    ==> #[trigger] final(self).memory(i) == old(self).memory(i),
            old(self).awaiting() && old(self).pass().phase() is Candidate ==> {
                &&& ok ==> final(self).memory(old(self).current()) == old(self).memory(
                    old(self).current(),
                ).insert(old(self).pass().current())
                &&& !ok ==> final(self).memory(old(self).current()) == old(self).memory(
                    old(self).current(),
                )
            },
            !(old(self).awaiting() && old(self).pass().phase() is Candidate) ==> final(self).memory(
                old(self).current(),
            ) == old(self).memory(old(self).current()),
    {
        if let Round::Running = self.round {
            if let Phase::Candidate(_, Stage::Importing) = self.pass.phase_now() {
                let i = self.current;
                self.pass.imported(ok, &mut self.trackers[i]);
            }
        }
    }
}

} // verus!
