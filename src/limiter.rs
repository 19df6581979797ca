use vstd::prelude::*;
use core::num::NonZeroU32;
use governor::clock::Clock;

verus! {

#[verifier::external_type_specification]
#[verifier::external_body]
pub struct ExQuota(governor::Quota);

/// Relies on governor::Quota::per_minute: `burst` cells, one replenished every
/// sixty seconds divided by `burst`.
#[verifier::external_body]
fn per_minute(burst: u32) -> governor::Quota
    requires
        burst > 0,
{
    governor::Quota::per_minute(NonZeroU32::new(burst).unwrap())
}

/// Relies on governor::Quota::per_hour: `burst` cells replenished over an hour.
#[verifier::external_body]
fn per_hour(burst: u32) -> governor::Quota
    requires
        burst > 0,
{
    governor::Quota::per_hour(NonZeroU32::new(burst).unwrap())
}

/// One token bucket per key, held by governor's keyed rate limiter.
#[verifier::external_body]
pub struct KeyedLimiter {
    inner: governor::DefaultKeyedRateLimiter<String>,
    clock: governor::clock::DefaultClock,
}

/// A single token bucket, held by governor's direct rate limiter.
#[verifier::external_body]
pub struct DirectLimiter {
    inner: governor::DefaultDirectRateLimiter,
    clock: governor::clock::DefaultClock,
}

impl KeyedLimiter {
    /// Relies on governor::RateLimiter::keyed: an empty store of buckets.
    #[verifier::external_body]
    fn keyed(quota: governor::Quota) -> KeyedLimiter {
        KeyedLimiter {
            inner: governor::RateLimiter::keyed(quota),
            clock: governor::clock::DefaultClock::default(),
        }
    }

    /// Relies on governor::RateLimiter::check_key: takes one cell from the
    /// bucket of `key` when it has one; otherwise the error carries, in
    /// nanoseconds, the wait that NotUntil::wait_time_from gives from now.
    /// The outcome depends on the clock, so nothing is promised of it.
    #[verifier::external_body]
    pub(crate) fn check_key(&self, key: &String) -> Result<(), u64> {
        match self.inner.check_key(key) {
            Ok(()) => Ok(()),
            Err(e) => Err(e.wait_time_from(self.clock.now()).as_nanos() as u64),
        }
    }

    /// Relies on governor::RateLimiter::retain_recent: drops the buckets that
    /// are back at full capacity.
    #[verifier::external_body]
    fn retain_recent(&self) {
        self.inner.retain_recent()
    }

    /// Relies on governor::RateLimiter::shrink_to_fit: gives back unused
    /// capacity of the bucket store.
    #[verifier::external_body]
    fn shrink_to_fit(&self) {
        self.inner.shrink_to_fit()
    }

    /// Discards the buckets that have fully replenished and releases the
    /// memory they held.
    fn compact(&self) {
        self.retain_recent();
        self.shrink_to_fit();
    }
}

impl DirectLimiter {
    /// Relies on governor::RateLimiter::direct: a full bucket.
    #[verifier::external_body]
    fn direct(quota: governor::Quota) -> DirectLimiter {
        DirectLimiter {
            inner: governor::RateLimiter::direct(quota),
            clock: governor::clock::DefaultClock::default(),
        }
    }

    /// Relies on governor::RateLimiter::check: takes one cell when the bucket
    /// has one; otherwise the error carries, in nanoseconds, the wait that
    /// NotUntil::wait_time_from gives from now. Nothing is promised of the
    /// outcome, which depends on the clock.
    #[verifier::external_body]
    pub(crate) fn check(&self) -> Result<(), u64> {
        match self.inner.check() {
            Ok(()) => Ok(()),
            Err(e) => Err(e.wait_time_from(self.clock.now()).as_nanos() as u64),
        }
    }
}

/// Queries (timeline fetch or import) allowed per server and per minute.
pub const QUERIES_PER_MINUTE: u32 = 1;

/// Imports allowed per upstream host and per hour.
pub const UPSTREAM_IMPORTS_PER_HOUR: u32 = 5;

/// Imports into the local server allowed per hour.
pub const LOCAL_IMPORTS_PER_HOUR: u32 = 20;

/// Passes over all hashtags allowed per hour.
pub const PASSES_PER_HOUR: u32 = 4;

/// A budget with one bucket per key: governor's limiter, the quota it was
/// made with, and a record of the keys asked and of the compactions.
pub struct KeyedBudget {
    store: KeyedLimiter,
    burst: u32,
    period_secs: u64,
    asked: Ghost<Seq<Seq<char>>>,
    compactions: Ghost<nat>,
}

impl KeyedBudget {
    /// Permits per period, for each key.
    pub closed spec fn burst(&self) -> u32 {
        self.burst
    }

    /// The period over which the permits replenish, in seconds.
    pub closed spec fn period_secs(&self) -> u64 {
        self.period_secs
    }

    /// The keys asked so far, in order.
    pub closed spec fn asked(&self) -> Seq<Seq<char>> {
        self.asked@
    }

    /// How many compactions were made.
    pub closed spec fn compactions(&self) -> nat {
        self.compactions@
    }

    pub fn per_minute(burst: u32) -> (r: KeyedBudget)
        requires
            burst > 0,
        ensures
            r.burst() == burst,
            r.period_secs() == 60,
            r.asked() == Seq::<Seq<char>>::empty(),
            r.compactions() == 0,
    {
        KeyedBudget {
            store: KeyedLimiter::keyed(per_minute(burst)),
            burst,
            period_secs: 60,
            asked: Ghost(Seq::empty()),
            compactions: Ghost(0),
        }
    }

    pub fn per_hour(burst: u32) -> (r: KeyedBudget)
        requires
            burst > 0,
        ensures
            r.burst() == burst,
            r.period_secs() == 3600,
            r.asked() == Seq::<Seq<char>>::empty(),
            r.compactions() == 0,
    {
        KeyedBudget {
            store: KeyedLimiter::keyed(per_hour(burst)),
            burst,
            period_secs: 3600,
            asked: Ghost(Seq::empty()),
            compactions: Ghost(0),
        }
    }

    /// Asks the bucket of `key` for one permit, without waiting; a refusal
    /// carries the wait in nanoseconds. The answer depends on the clock.
    pub fn check_key(&mut self, key: &String) -> (r: Result<(), u64>)
        ensures
            final(self).asked() == old(self).asked().push(key@),
            final(self).compactions() == old(self).compactions(),
            final(self).burst() == old(self).burst(),
            final(self).period_secs() == old(self).period_secs(),
    {
        self.asked = Ghost(self.asked@.push(key@));
        self.store.check_key(key)
    }

    /// Discards the buckets that have fully replenished and releases the
    /// memory they held.
    pub fn compact(&mut self)
        ensures
            final(self).asked() == old(self).asked(),
            final(self).compactions() == old(self).compactions() + 1,
            final(self).burst() == old(self).burst(),
            final(self).period_secs() == old(self).period_secs(),
    {
        self.store.compact();
        self.compactions = Ghost(self.compactions@ + 1);
    }
}

/// A budget with a single bucket: governor's limiter, the quota it was made
/// with, and a count of the permits asked.
pub struct DirectBudget {
    store: DirectLimiter,
    burst: u32,
    period_secs: u64,
    asks: Ghost<nat>,
}

impl DirectBudget {
    pub closed spec fn burst(&self) -> u32 {
        self.burst
    }

    pub closed spec fn period_secs(&self) -> u64 {
        self.period_secs
    }

    /// How many permits were asked so far.
    pub closed spec fn asks(&self) -> nat {
        self.asks@
    }

    pub fn per_hour(burst: u32) -> (r: DirectBudget)
        requires
            burst > 0,
        ensures
            r.burst() == burst,
            r.period_secs() == 3600,
            r.asks() == 0,
    {
        DirectBudget {
            store: DirectLimiter::direct(per_hour(burst)),
            burst,
            period_secs: 3600,
            asks: Ghost(0),
        }
    }

    /// Asks for one permit, without waiting; a refusal carries the wait in
    /// nanoseconds. The answer depends on the clock.
    pub fn check(&mut self) -> (r: Result<(), u64>)
        ensures
            final(self).asks() == old(self).asks() + 1,
            final(self).burst() == old(self).burst(),
            final(self).period_secs() == old(self).period_secs(),
    {
        self.asks = Ghost(self.asks@ + 1);
        self.store.check()
    }
}

/// The four rate budgets of the importer.
pub struct Limiters {
    /// Keyed by server: shared by timeline fetches and imports.
    pub queries: KeyedBudget,
    /// Keyed by the host a status comes from; checked without waiting.
    pub upstreams: KeyedBudget,
    /// Imports into the local server.
    pub imports: DirectBudget,
    /// Passes over all hashtags.
    pub passes: DirectBudget,
}

impl Limiters {
    pub fn new() -> (r: Limiters)
        ensures
            r.queries.burst() == QUERIES_PER_MINUTE && r.queries.period_secs() == 60,
            r.upstreams.burst() == UPSTREAM_IMPORTS_PER_HOUR && r.upstreams.period_secs() == 3600,
            r.imports.burst() == LOCAL_IMPORTS_PER_HOUR && r.imports.period_secs() == 3600,
            r.passes.burst() == PASSES_PER_HOUR && r.passes.period_secs() == 3600,
            r.queries.asked() == Seq::<Seq<char>>::empty() && r.queries.compactions() == 0,
            r.upstreams.asked() == Seq::<Seq<char>>::empty() && r.upstreams.compactions() == 0,
            r.imports.asks() == 0 && r.passes.asks() == 0,
    {
        Limiters {
            queries: KeyedBudget::per_minute(QUERIES_PER_MINUTE),
            upstreams: KeyedBudget::per_hour(UPSTREAM_IMPORTS_PER_HOUR),
            imports: DirectBudget::per_hour(LOCAL_IMPORTS_PER_HOUR),
            passes: DirectBudget::per_hour(PASSES_PER_HOUR),
        }
    }
}

} // verus!
