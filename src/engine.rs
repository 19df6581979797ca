use vstd::prelude::*;
use crate::dedup::DedupTracker;
use crate::host::{host_of, status_host};
use crate::limiter::Limiters;
use crate::status_set::{views_of, StatusSet};

verus! {

/// Statuses asked of each remote source in one fetch.
pub const REMOTE_PAGE: u8 = 25;

/// Statuses asked of the local server in one fetch.
pub const LOCAL_PAGE: u8 = 40;

/// A hashtag to follow, with the servers it is read from.
pub struct Hashtag {
    pub name: String,
    /// Remote servers, in the order they are read.
    pub sources: Vec<String>,
    /// Other tags that a status may carry instead of `name`.
    pub any: Option<Vec<String>>,
}

/// The server statuses are imported into.
pub struct LocalServer {
    pub host: String,
    /// Access token for authenticated calls.
    pub token: String,
}

/// A timeline fetch for the hashtag of the pass; an empty token means an
/// anonymous fetch.
pub struct Fetch {
    pub server: String,
    pub token: String,
    pub limit: u8,
}

/// Why a candidate was skipped before any import call.
#[derive(PartialEq, Eq, Structural, Clone, Copy, Debug)]
pub enum Failure {
    /// No host could be read from the URL.
    UnparseableUrl,
    /// The budget of the status's upstream host is spent for now.
    QuotaExceeded,
}

/// What the caller is to do next for a pass.
pub enum Step {
    /// Sleep this many nanoseconds, then ask again.
    Wait(u64),
    /// Run the fetch and hand its result to `fetched` or `fetch_failed`.
    Fetch(Fetch),
    /// Import this URL into the local server and hand the outcome to `imported`.
    Import(String),
    /// This candidate is left for a later pass.
    Skipped(String, Failure),
    /// The pass is over.
    Done,
}

/// The budgets keep their quotas and compaction counts; only the records of
/// permits asked may differ.
pub open spec fn unchanged_but_logs(a: Limiters, b: Limiters) -> bool {
    &&& b.queries.burst() == a.queries.burst() && b.queries.period_secs() == a.queries.period_secs()
    &&& b.upstreams.burst() == a.upstreams.burst() && b.upstreams.period_secs()
        == a.upstreams.period_secs()
    &&& b.imports.burst() == a.imports.burst() && b.imports.period_secs() == a.imports.period_secs()
    &&& b.passes.burst() == a.passes.burst() && b.passes.period_secs() == a.passes.period_secs()
    &&& b.queries.compactions() == a.queries.compactions()
    &&& b.upstreams.compactions() == a.upstreams.compactions()
}

/// A budget to ask for one permit, with its key.
pub enum Permit {
    /// The query budget of this server.
    Query(String),
    /// The import budget of this upstream host.
    Upstream(String),
    /// The budget of imports into the local server.
    Import,
    /// A candidate whose URL names no host: no budget can be asked.
    NoHost,
    /// Nothing to ask.
    NoneNeeded,
}

/// Asks the budget that `need` names for one permit; `None` where it names
/// none. The answer depends on the clock.
pub fn ask(limiters: &mut Limiters, need: &Permit) -> (r: Option<Result<(), u64>>)
    ensures
        r is None <==> (need is NoHost || need is NoneNeeded),
        final(limiters).queries.asked() == (match need {
            Permit::Query(k) => old(limiters).queries.asked().push(k@),
            _ => old(limiters).queries.asked(),
        }),
        final(limiters).upstreams.asked() == (match need {
            Permit::Upstream(h) => old(limiters).upstreams.asked().push(h@),
            _ => old(limiters).upstreams.asked(),
        }),
        final(limiters).imports.asks() == old(limiters).imports.asks() + (if need is Import {
            1int
        } else {
            0int
        }),
        unchanged_but_logs(*old(limiters), *final(limiters)),
        final(limiters).passes.asks() == old(limiters).passes.asks(),
{
    match need {
        Permit::Query(k) => Some(limiters.queries.check_key(k)),
        Permit::Upstream(h) => Some(limiters.upstreams.check_key(h)),
        Permit::Import => Some(limiters.imports.check()),
        Permit::NoHost | Permit::NoneNeeded => None,
    }
}

/// How far a candidate has gone through the budgets.
#[derive(PartialEq, Eq, Structural, Clone, Copy, Debug)]
pub enum Stage {
    /// Not yet screened against its upstream host.
    Fresh,
    /// Admitted by its upstream host's budget; waits for an import permit.
    Admitted,
    /// Holds an import permit; waits for a query permit of the local server.
    Permitted,
    /// Handed out for import; waits for the outcome.
    Importing,
}

/// Where a pass stands.
#[derive(PartialEq, Eq, Structural, Clone, Copy, Debug)]
pub enum Phase {
    /// About to fetch the source of this index (or to move on past the last).
    Source(usize),
    /// Waits for the result of the fetch of this source.
    FetchingSource(usize),
    /// About to fetch the local server's timeline.
    Local,
    /// Waits for the result of the local fetch.
    FetchingLocal,
    /// Works on the candidate of this index.
    Candidate(usize, Stage),
    /// Every candidate was handled and the dedup memory pruned.
    Finished,
    /// A fetch failed; the pass for this hashtag ends without a prune.
    Aborted,
}

/// The phase works on a candidate that has not been screened yet.
pub open spec fn is_fresh(p: Phase) -> bool {
    p matches Phase::Candidate(_, Stage::Fresh)
}

/// One pass over one hashtag: gather the remote statuses, subtract those the
/// local server shows, and import the rest through the budgets.
pub struct HashtagPass {
    sources: Vec<String>,
    phase: Phase,
    remote: StatusSet,
    local: StatusSet,
    candidates: Vec<String>,
}

impl HashtagPass {
    pub closed spec fn sources(&self) -> Seq<Seq<char>> {
        views_of(self.sources@)
    }

    pub closed spec fn phase(&self) -> Phase {
        self.phase
    }

    /// The statuses seen on the sources so far.
    pub closed spec fn remote_set(&self) -> Set<Seq<char>> {
        self.remote@
    }

    /// The statuses the local server showed.
    pub closed spec fn local_set(&self) -> Set<Seq<char>> {
        self.local@
    }

    /// The candidates in the order they are worked on.
    pub closed spec fn candidates(&self) -> Seq<Seq<char>> {
        views_of(self.candidates@)
    }

    pub closed spec fn wf(&self) -> bool {
        &&& self.remote.wf()
        &&& self.local.wf()
        &&& views_of(self.candidates@).no_duplicates()
        &&& match self.phase {
            Phase::Source(i) => i <= self.sources.len(),
            Phase::FetchingSource(i) => i < self.sources.len(),
            Phase::Candidate(j, stage) => j < self.candidates.len() || (stage == Stage::Fresh && j
                == self.candidates.len()),
            _ => true,
        }
        &&& (self.phase is Candidate || self.phase is Finished) ==> views_of(
            self.candidates@,
        ).to_set() == self.remote@.difference(self.local@)
    }

    /// The pass waits for the caller to report on a fetch or an import.
    pub open spec fn awaiting(&self) -> bool {
        ||| self.phase() is FetchingSource
        ||| self.phase() is FetchingLocal
        ||| self.phase() matches Phase::Candidate(_, Stage::Importing)
    }

    /// The candidate that the phase is working on.
    pub open spec fn current(&self) -> Seq<char> {
        self.candidates()[self.phase()->Candidate_0 as int]
    }

    pub fn new(hashtag: &Hashtag) -> (r: HashtagPass)
        ensures
            r.wf(),
            r.phase() == Phase::Source(0),
            r.sources() == views_of(hashtag.sources@),
            r.remote_set() == Set::<Seq<char>>::empty(),
    {
        HashtagPass {
            sources: hashtag.sources.clone(),
            phase: Phase::Source(0),
            remote: StatusSet::new(),
            local: StatusSet::new(),
            candidates: Vec::new(),
        }
    }

    /// Takes the statuses a fetch returned.
    pub fn fetched(&mut self, urls: Vec<String>)
        requires
            old(self).wf(),
            old(self).phase() is FetchingSource || old(self).phase() is FetchingLocal,
        ensures
            final(self).wf(),
            final(self).sources() == old(self).sources(),
            old(self).phase() matches Phase::FetchingSource(i) ==> {
                &&& final(self).phase() == Phase::Source((i + 1) as usize)
                &&& final(self).remote_set() == old(self).remote_set().union(views_of(urls@).to_set())
            },
            old(self).phase() is FetchingLocal ==> {
                &&& final(self).phase() == Phase::Candidate(0, Stage::Fresh)
                &&& final(self).remote_set() == old(self).remote_set()
                &&& final(self).local_set() == views_of(urls@).to_set()
                &&& final(self).candidates().to_set() == final(self).remote_set().difference(
                    final(self).local_set(),
                )
                &&& final(self).candidates().no_duplicates()
            },
    {
        match self.phase {
            Phase::FetchingSource(i) => {
                self.remote.extend(urls);
                self.phase = Phase::Source(i + 1);
            },
            _ => {
                self.local = StatusSet::from_vec(urls);
                self.candidates = self.remote.difference(&self.local);
                self.phase = Phase::Candidate(0, Stage::Fresh);
            },
        }
    }

    /// A fetch failed: the pass for this hashtag ends here.
    pub fn fetch_failed(&mut self)
        requires
            old(self).wf(),
        ensures
            final(self).wf(),
            final(self).phase() == Phase::Aborted,
            final(self).remote_set() == old(self).remote_set(),
            final(self).sources() == old(self).sources(),
    {
        self.phase = Phase::Aborted;
    }

    /// Takes the outcome of the import of the current candidate; a success is
    /// remembered in `tracker`.
    pub fn imported(&mut self, ok: bool, tracker: &mut DedupTracker)
        requires
            old(self).wf(),
            old(tracker).wf(),
            old(self).phase() matches Phase::Candidate(_, Stage::Importing),
        ensures
            final(self).wf(),
            final(tracker).wf(),
            final(self).phase() == Phase::Candidate(
                (old(self).phase()->Candidate_0 + 1) as usize,
                Stage::Fresh,
            ),
            ok ==> final(tracker)@ == old(tracker)@.insert(old(self).current()),
            !ok ==> final(tracker)@ == old(tracker)@,
            final(self).remote_set() == old(self).remote_set(),
            final(self).local_set() == old(self).local_set(),
            final(self).candidates() == old(self).candidates(),
            final(self).sources() == old(self).sources(),
    {
        match self.phase {
            Phase::Candidate(j, _) => {
                if ok {
                    let url = self.candidates[j].clone();
                    tracker.mark_imported(url);
                }
                self.phase = Phase::Candidate(j + 1, Stage::Fresh);
            },
            _ => {},
        }
    }

    /// Moves past what needs no permit: the end of the source list, and
    /// candidates already imported. At the end of the candidates the memory is
    /// pruned to the statuses seen remotely and the pass is finished.
    pub fn settle(&mut self, tracker: &mut DedupTracker)
        requires
            old(self).wf(),
            old(tracker).wf(),
        ensures
            final(self).wf(),
            final(tracker).wf(),
            final(self).remote_set() == old(self).remote_set(),
            final(self).local_set() == old(self).local_set(),
            final(self).candidates() == old(self).candidates(),
            final(self).sources() == old(self).sources(),
            old(self).phase() matches Phase::Candidate(j, Stage::Fresh) ==> {
                &&& final(self).phase() matches Phase::Candidate(k, Stage::Fresh) ==> forall|m: int|
                    j <= m < k ==> old(tracker)@.contains(#[trigger] old(self).candidates()[m])
                &&& final(self).phase() is Finished ==> forall|m: int|
                    j <= m < old(self).candidates().len() ==> old(tracker)@.contains(
                        #[trigger] old(self).candidates()[m],
                    )
            },
            old(self).phase() matches Phase::Source(i) ==> final(self).phase() == (if i
                < old(self).sources().len() {
                old(self).phase()
            } else {
                Phase::Local
            }),
            old(self).phase() matches Phase::Candidate(j, Stage::Fresh) ==> {
                ||| final(self).phase() matches Phase::Candidate(k, Stage::Fresh) && j <= k
                    < final(self).candidates().len() && !final(tracker)@.contains(
                    final(self).candidates()[k as int],
                )
                ||| final(self).phase() is Finished
            },
            is_fresh(old(self).phase()) && final(self).phase() is Finished ==> final(tracker)@
                == old(tracker)@.intersect(old(self).remote_set()),
            !(is_fresh(old(self).phase()) && final(self).phase() is Finished) ==> final(tracker)@
                == old(tracker)@,
            !(old(self).phase() is Source) && !is_fresh(old(self).phase()) ==> final(self).phase()
                == old(self).phase(),
    {
        match self.phase {
            Phase::Source(i) => {
                if i >= self.sources.len() {
                    self.phase = Phase::Local;
                }
            },
            Phase::Candidate(j0, Stage::Fresh) => {
                let mut j = j0;
                while j < self.candidates.len() && tracker.was_imported(&self.candidates[j])
                    invariant
                        j0 <= j <= self.candidates.len(),
                        forall|m: int| j0 <= m < j ==> tracker@.contains(#[trigger] views_of(self.candidates@)[m]),
                    decreases self.candidates.len() - j,
                {
                    assert(views_of(self.candidates@)[j as int] == self.candidates@[j as int]@);
                    j += 1;
                }
                if j < self.candidates.len() {
                    self.phase = Phase::Candidate(j, Stage::Fresh);
                } else {
                    tracker.retain_only(&self.remote);
                    self.phase = Phase::Finished;
                }
            },
            _ => {},
        }
    }

    /// Screens the current fresh candidate against the budget of its upstream
    /// host. `upstream` is `None` where no host could be read from the URL,
    /// else the answer of that host's budget.
    pub fn screen(&mut self, upstream: Option<Result<(), u64>>) -> (r: Option<Step>)
        requires
            old(self).wf(),
            old(self).phase() matches Phase::Candidate(j, Stage::Fresh) && j < old(
                self,
            ).candidates().len(),
        ensures
            final(self).wf(),
            final(self).remote_set() == old(self).remote_set(),
            final(self).local_set() == old(self).local_set(),
            final(self).candidates() == old(self).candidates(),
            final(self).sources() == old(self).sources(),
            ({
                let j = old(self).phase()->Candidate_0;
                match upstream {
                    Some(Ok(())) => final(self).phase() == Phase::Candidate(j, Stage::Admitted)
                        && r is None,
                    Some(Err(_)) => final(self).phase() == Phase::Candidate(
                        (j + 1) as usize,
                        Stage::Fresh,
                    ) && (r matches Some(Step::Skipped(u, Failure::QuotaExceeded)) && u@ == old(
                        self,
                    ).current()),
                    None => final(self).phase() == Phase::Candidate(
                        (j + 1) as usize,
                        Stage::Fresh,
                    ) && (r matches Some(Step::Skipped(u, Failure::UnparseableUrl)) && u@ == old(
                        self,
                    ).current()),
                }
            }),
    {
        match self.phase {
            Phase::Candidate(j, _) => {
                match upstream {
                    Some(Ok(())) => {
                        self.phase = Phase::Candidate(j, Stage::Admitted);
                        None
                    },
                    Some(Err(_)) => {
                        self.phase = Phase::Candidate(j + 1, Stage::Fresh);
                        Some(Step::Skipped(self.candidates[j].clone(), Failure::QuotaExceeded))
                    },
                    None => {
                        self.phase = Phase::Candidate(j + 1, Stage::Fresh);
                        Some(Step::Skipped(self.candidates[j].clone(), Failure::UnparseableUrl))
                    },
                }
            },
            _ => None,
        }
    }

    /// Acts on the answer of the budget that the phase waits on: the query
    /// budget of a source or of the local server, or the import budget. A
    /// refusal leaves the phase as it is and asks the caller to wait.
    pub fn grant(&mut self, permit: Result<(), u64>, local: &LocalServer) -> (r: Option<Step>)
        requires
            old(self).wf(),
            old(self).phase() is Source && old(self).phase()->Source_0 < old(self).sources().len()
                || old(self).phase() is Local || old(self).phase() matches Phase::Candidate(
                _,
                Stage::Admitted,
            ) || old(self).phase() matches Phase::Candidate(_, Stage::Permitted),
        ensures
            final(self).wf(),
            final(self).remote_set() == old(self).remote_set(),
            final(self).local_set() == old(self).local_set(),
            final(self).candidates() == old(self).candidates(),
            final(self).sources() == old(self).sources(),
            permit matches Err(w) ==> final(self).phase() == old(self).phase() && r == Some(
                Step::Wait(w),
            ),
            permit is Ok ==> match old(self).phase() {
                Phase::Source(i) => final(self).phase() == Phase::FetchingSource(i) && (r matches Some(
                    Step::Fetch(f),
                ) && f.server@ == old(self).sources()[i as int] && f.token@.len() == 0 && f.limit
                    == REMOTE_PAGE),
                Phase::Local => final(self).phase() == Phase::FetchingLocal && (r matches Some(
                    Step::Fetch(f),
                ) && f.server@ == local.host@ && f.token@ == local.token@ && f.limit
                    == LOCAL_PAGE),
                Phase::Candidate(j, Stage::Admitted) => final(self).phase() == Phase::Candidate(
                    j,
                    Stage::Permitted,
                ) && r is None,
                Phase::Candidate(j, _) => final(self).phase() == Phase::Candidate(
                    j,
                    Stage::Importing,
                ) && (r matches Some(Step::Import(u)) && u@ == old(self).current()),
                _ => false,
            },
    {
        match permit {
            Err(w) => Some(Step::Wait(w)),
            Ok(()) => {
                match self.phase {
                    Phase::Source(i) => {
                        self.phase = Phase::FetchingSource(i);
                        Some(
                            Step::Fetch(
                                Fetch {
                                    server: self.sources[i].clone(),
                                    token: String::new(),
                                    limit: REMOTE_PAGE,
                                },
                            ),
                        )
                    },
                    Phase::Local => {
                        self.phase = Phase::FetchingLocal;
                        Some(
                            Step::Fetch(
                                Fetch {
                                    server: local.host.clone(),
                                    token: local.token.clone(),
                                    limit: LOCAL_PAGE,
                                },
                            ),
                        )
                    },
                    Phase::Candidate(j, Stage::Admitted) => {
                        self.phase = Phase::Candidate(j, Stage::Permitted);
                        None
                    },
                    Phase::Candidate(j, _) => {
                        self.phase = Phase::Candidate(j, Stage::Importing);
                        Some(Step::Import(self.candidates[j].clone()))
                    },
                    _ => None,
                }
            },
        }
    }

    /// Every candidate is seen remotely and not locally.
    pub proof fn lemma_candidate_is_new(&self, j: int)
        requires
            self.wf(),
            self.phase() is Candidate || self.phase() is Finished,
            0 <= j < self.candidates().len(),
        ensures
            self.remote_set().contains(self.candidates()[j]),
            !self.local_set().contains(self.candidates()[j]),
    {
        assert(self.candidates().to_set().contains(self.candidates()[j]));
    }

    /// A candidate past its upstream screening is not in the dedup memory.
    pub open spec fn agrees_with(&self, imported: Set<Seq<char>>) -> bool {
        self.phase() is Candidate && !is_fresh(self.phase()) ==> !imported.contains(self.current())
    }

    /// Decides the next step of the pass, taking permits from `limiters` as
    /// the phase needs them: a query permit before each fetch; for each
    /// candidate not yet imported, a non-blocking check of its upstream host's
    /// budget, then an import permit, then a query permit of the local server.
    pub fn next(&mut self, tracker: &mut DedupTracker, limiters: &mut Limiters, local: &LocalServer) -> (r:
        Step)
        requires
            old(self).wf(),
            old(tracker).wf(),
            !old(self).awaiting(),
            old(self).agrees_with(old(tracker)@),
        ensures
            final(self).wf(),
            final(tracker).wf(),
            final(self).agrees_with(final(tracker)@),
            final(self).remote_set() == old(self).remote_set(),
            final(self).local_set() == old(self).local_set(),
            final(self).candidates() == old(self).candidates(),
            final(self).sources() == old(self).sources(),
            final(tracker)@ == old(tracker)@ || (final(self).phase() is Finished
                && final(tracker)@ == old(tracker)@.intersect(old(self).remote_set())),
            r is Done <==> (final(self).phase() is Finished || final(self).phase() is Aborted),
            old(self).phase() is Source || old(self).phase() is Local ==> !(r is Done),
            final(self).phase() is Aborted <==> old(self).phase() is Aborted,
            unchanged_but_logs(*old(limiters), *final(limiters)),
            final(limiters).passes.asks() == old(limiters).passes.asks(),
            r is Done || (r matches Step::Skipped(_, Failure::UnparseableUrl)) ==> {
                &&& final(limiters).queries.asked() == old(limiters).queries.asked()
                &&& final(limiters).upstreams.asked() == old(limiters).upstreams.asked()
                &&& final(limiters).imports.asks() == old(limiters).imports.asks()
            },
            r matches Step::Fetch(f) ==> {
                &&& final(limiters).queries.asked() == old(limiters).queries.asked().push(f.server@)
                &&& final(limiters).upstreams.asked() == old(limiters).upstreams.asked()
                &&& final(limiters).imports.asks() == old(limiters).imports.asks()
            },
            r is Import || (r is Wait && final(self).phase() matches Phase::Candidate(_, Stage::Permitted))
                ==> final(limiters).queries.asked() == old(limiters).queries.asked().push(local.host@),
            old(self).phase() matches Phase::Source(i) ==> if i < old(self).sources().len() {
                ||| r is Wait && final(self).phase() == old(self).phase()
                    && final(limiters).queries.asked() == old(limiters).queries.asked().push(
                    old(self).sources()[i as int],
                ) && final(limiters).upstreams.asked() == old(limiters).upstreams.asked()
                    && final(limiters).imports.asks() == old(limiters).imports.asks()
                ||| r is Fetch && final(self).phase() == Phase::FetchingSource(i)
            } else {
                ||| r is Wait && final(self).phase() == Phase::Local
                    && final(limiters).queries.asked() == old(limiters).queries.asked().push(local.host@)
                    && final(limiters).upstreams.asked() == old(limiters).upstreams.asked()
                    && final(limiters).imports.asks() == old(limiters).imports.asks()
                ||| r is Fetch && final(self).phase() == Phase::FetchingLocal
            },
            old(self).phase() is Local ==> {
                ||| r is Wait && final(self).phase() == Phase::Local
                    && final(limiters).queries.asked() == old(limiters).queries.asked().push(local.host@)
                    && final(limiters).upstreams.asked() == old(limiters).upstreams.asked()
                    && final(limiters).imports.asks() == old(limiters).imports.asks()
                ||| r is Fetch && final(self).phase() == Phase::FetchingLocal
            },
            old(self).phase() matches Phase::Candidate(_, Stage::Admitted) ==> {
                &&& final(limiters).imports.asks() == old(limiters).imports.asks() + 1
                &&& final(limiters).upstreams.asked() == old(limiters).upstreams.asked()
                &&& final(self).phase() == old(self).phase() ==> final(limiters).queries.asked()
                    == old(limiters).queries.asked()
            },
            old(self).phase() matches Phase::Candidate(_, Stage::Permitted) ==> {
                &&& final(limiters).imports.asks() == old(limiters).imports.asks()
                &&& final(limiters).upstreams.asked() == old(limiters).upstreams.asked()
                &&& final(limiters).queries.asked() == old(limiters).queries.asked().push(local.host@)
            },
            is_fresh(old(self).phase()) && (forall|k: int|
                old(self).phase()->Candidate_0 <= k < old(self).candidates().len()
                    ==> old(tracker)@.contains(#[trigger] old(self).candidates()[k])) ==> {
                &&& r is Done
                &&& final(self).phase() is Finished
                &&& final(tracker)@ == old(tracker)@.intersect(old(self).remote_set())
            },
            forall|k: int|
                is_fresh(old(self).phase()) && old(self).phase()->Candidate_0 <= k < old(
                    self,
                ).candidates().len() && !old(tracker)@.contains(#[trigger] old(self).candidates()[k])
                    && (forall|m: int|
                    old(self).phase()->Candidate_0 <= m < k ==> old(tracker)@.contains(
                        old(self).candidates()[m],
                    )) ==> {
                    &&& final(tracker)@ == old(tracker)@
                    &&& host_of(old(self).candidates()[k]) is None ==> (r matches Step::Skipped(
                        u,
                        Failure::UnparseableUrl,
                    ) && u@ == old(self).candidates()[k] && final(self).phase() == Phase::Candidate(
                        (k + 1) as usize,
                        Stage::Fresh,
                    ))
                    &&& host_of(old(self).candidates()[k]) is Some ==> final(limiters).upstreams.asked()
                        == old(limiters).upstreams.asked().push(host_of(old(self).candidates()[k])->Some_0)
                    &&& host_of(old(self).candidates()[k]) is Some ==> final(limiters).imports.asks()
                        == old(limiters).imports.asks() + (if r is Skipped { 0int } else { 1int })
                    &&& host_of(old(self).candidates()[k]) is Some && (r is Skipped || (r is Wait
                        && final(self).phase() matches Phase::Candidate(_, Stage::Admitted)))
                        ==> final(limiters).queries.asked() == old(limiters).queries.asked()
                    &&& host_of(old(self).candidates()[k]) is Some ==> {
                        ||| r matches Step::Skipped(u, Failure::QuotaExceeded) && u@ == old(
                            self,
                        ).candidates()[k] && final(self).phase() == Phase::Candidate(
                            (k + 1) as usize,
                            Stage::Fresh,
                        )
                        ||| r matches Step::Import(u) && u@ == old(self).candidates()[k]
                            && final(self).phase() == Phase::Candidate(k as usize, Stage::Importing)
                        ||| r is Wait && final(self).phase() == Phase::Candidate(k as usize, Stage::Admitted)
                        ||| r is Wait && final(self).phase() == Phase::Candidate(k as usize, Stage::Permitted)
                    }
                },
            old(self).phase() matches Phase::Candidate(j, Stage::Admitted) ==> {
                ||| r is Wait && final(self).phase() == old(self).phase()
                ||| r is Wait && final(self).phase() == Phase::Candidate(j, Stage::Permitted)
                ||| r matches Step::Import(u) && u@ == old(self).current()
                    && final(self).phase() == Phase::Candidate(j, Stage::Importing)
            },
            old(self).phase() matches Phase::Candidate(j, Stage::Permitted) ==> {
                ||| r is Wait && final(self).phase() == old(self).phase()
                ||| r matches Step::Import(u) && u@ == old(self).current()
                    && final(self).phase() == Phase::Candidate(j, Stage::Importing)
            },
            r is Wait ==> !final(self).awaiting(),
            r matches Step::Fetch(f) ==> {
                ||| final(self).phase() matches Phase::FetchingSource(i)
                    && f.server@ == final(self).sources()[i as int]
                    && f.token@.len() == 0 && f.limit == REMOTE_PAGE
                ||| final(self).phase() is FetchingLocal && f.server@ == local.host@ && f.token@
                    == local.token@ && f.limit == LOCAL_PAGE
            },
            r matches Step::Import(u) ==> {
                &&& final(self).phase() matches Phase::Candidate(_, Stage::Importing)
                &&& u@ == final(self).current()
                &&& !final(tracker)@.contains(u@)
                &&& final(self).remote_set().contains(u@)
                &&& !final(self).local_set().contains(u@)
            },
            r matches Step::Skipped(u, why) ==> {
                &&& !final(self).awaiting()
                &&& final(self).candidates().contains(u@)
                &&& !final(tracker)@.contains(u@)
                &&& why == Failure::UnparseableUrl ==> host_of(u@) is None
                &&& why == Failure::QuotaExceeded ==> host_of(u@) is Some
            },
    {
        self.settle(tracker);
        if let Phase::Candidate(_, Stage::Fresh) = self.phase {
            let need = self.permit_needed(local);
            let upstream = ask(limiters, &need);
            if let Some(step) = self.screen(upstream) {
                return step;
            }
        }
        if let Phase::Candidate(_, Stage::Admitted) = self.phase {
            let need = self.permit_needed(local);
            if let Some(permit) = ask(limiters, &need) {
                if let Some(step) = self.grant(permit, local) {
                    return step;
                }
            }
        }
        let need = self.permit_needed(local);
        let permit = match ask(limiters, &need) {
            Some(p) => p,
            None => {
                return Step::Done;
            },
        };
        let r = self.grant(permit, local);
        proof {
            if self.phase is Candidate {
                self.lemma_candidate_is_new(self.phase->Candidate_0 as int);
            }
        }
        match r {
            Some(step) => step,
            None => Step::Done,
        }
    }

    /// The budget that the phase has to ask next, with the key it asks under:
    /// a source's fetch asks the query budget of that source; the local fetch
    /// and a candidate holding an import permit ask the query budget of the
    /// local server; a fresh candidate asks the budget of its upstream host;
    /// an admitted candidate asks the import budget.
    pub fn permit_needed(&self, local: &LocalServer) -> (r: Permit)
        requires
            self.wf(),
        ensures
            match self.phase() {
                Phase::Source(i) => if i < self.sources().len() {
                    r matches Permit::Query(k) && k@ == self.sources()[i as int]
                } else {
                    r is NoneNeeded
                },
                Phase::Local => r matches Permit::Query(k) && k@ == local.host@,
                Phase::Candidate(j, Stage::Permitted) => r matches Permit::Query(k) && k@ == local.host@,
                Phase::Candidate(j, Stage::Admitted) => r is Import,
                Phase::Candidate(j, Stage::Fresh) => if j < self.candidates().len() {
                    match host_of(self.current()) {
                        Some(h) => r matches Permit::Upstream(k) && k@ == h,
                        None => r is NoHost,
                    }
                } else {
                    r is NoneNeeded
                },
                _ => r is NoneNeeded,
            },
    {
        match self.phase {
            Phase::Source(i) => {
                if i < self.sources.len() {
                    Permit::Query(self.sources[i].clone())
                } else {
                    Permit::NoneNeeded
                }
            },
            Phase::Local | Phase::Candidate(_, Stage::Permitted) => Permit::Query(local.host.clone()),
            Phase::Candidate(_, Stage::Admitted) => Permit::Import,
            Phase::Candidate(j, Stage::Fresh) => {
                if j < self.candidates.len() {
                    match status_host(&self.candidates[j]) {
                        Some(h) => Permit::Upstream(h),
                        None => Permit::NoHost,
                    }
                } else {
                    Permit::NoneNeeded
                }
            },
            _ => Permit::NoneNeeded,
        }
    }

    pub fn is_awaiting(&self) -> (r: bool)
        ensures
            r == self.awaiting(),
    {
        match self.phase {
            Phase::FetchingSource(_) | Phase::FetchingLocal | Phase::Candidate(_, Stage::Importing) => true,
            _ => false,
        }
    }

    pub fn is_aborted(&self) -> (r: bool)
        ensures
            r == (self.phase() is Aborted),
    {
        match self.phase {
            Phase::Aborted => true,
            _ => false,
        }
    }

    /// A fetch is outstanding.
    pub fn is_fetching(&self) -> (r: bool)
        ensures
            r == (self.phase() is FetchingSource || self.phase() is FetchingLocal),
    {
        match self.phase {
            Phase::FetchingSource(_) | Phase::FetchingLocal => true,
            _ => false,
        }
    }

    pub fn phase_now(&self) -> (r: Phase)
        ensures
            r == self.phase(),
    {
        self.phase
    }

    /// The candidates, once the local timeline is known.
    pub fn candidate_urls(&self) -> (r: &Vec<String>)
        ensures
            views_of(r@) == self.candidates(),
    {
        &self.candidates
    }
}

} // verus!
