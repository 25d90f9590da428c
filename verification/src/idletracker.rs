//! The activity clock of one connection: when it last moved bytes, and
//! whether that is longer ago than its limit allows.

use std::time::Instant;
use vstd::prelude::*;

verus! {

/// `std::time::Instant`: a moment on the monotonic clock, carried as it is.
/// Nothing is known of what is inside.
#[verifier::external_type_specification]
#[verifier::external_body]
pub struct ExInstant(Instant);

/// The nanoseconds in a millisecond.
pub const NANOS_PER_MILLI: u128 = 1_000_000;

/// The longest time that a `Duration` can hold, in nanoseconds: whole
/// seconds up to `u64::MAX` and a fraction below one second.
pub const MAX_DURATION_NANOS: u128 = 18_446_744_073_709_551_615_999_999_999;

/// The limit that a setting in milliseconds stands for: zero means no
/// limit, which is the longest time that can be written.
pub open spec fn spec_limit(max_idle_ms: u64) -> u64 {
    if max_idle_ms == 0 {
        u64::MAX
    } else {
        max_idle_ms
    }
}

/// An idle time, in nanoseconds, is over a limit, in milliseconds.
pub open spec fn spec_expired(idle_nanos: u128, limit_ms: u64) -> bool {
    idle_nanos > limit_ms * 1_000_000
}

/// With the setting zero no idle time that fits in 64 bits of milliseconds
/// is over the limit: the limit is switched off.
pub proof fn lemma_zero_never_expires(idle_nanos: u128)
    requires
        idle_nanos <= u64::MAX * 1_000_000,
    ensures
        !spec_expired(idle_nanos, spec_limit(0)),
{
}

/// `Instant::now`: the moment of the call on the monotonic clock. Nothing is
/// known of it.
#[verifier::external_body]
pub(crate) fn clock_now() -> Instant {
    Instant::now()
}

/// `Instant::elapsed`, read in nanoseconds with `Duration::as_nanos`: the
/// time since `since` on the monotonic clock. It depends on the moment of
/// the call. Of every reading only its range is known: a `Duration` holds
/// its whole seconds in a `u64` and a fraction below one second.
#[verifier::external_body]
pub(crate) fn nanos_since(since: &Instant) -> (nanos: u128)
    ensures
        nanos <= MAX_DURATION_NANOS,
{
    since.elapsed().as_nanos()
}

/// When a connection was last active, and how long it may stay idle.
#[derive(Debug)]
pub struct IdleTracker {
    last_active: Instant,
    max_idle_ms: u64,
}

impl IdleTracker {
    /// The moment of the last activity.
    pub closed spec fn last_active(&self) -> Instant {
        self.last_active
    }

    /// The limit in milliseconds.
    pub closed spec fn limit(&self) -> u64 {
        self.max_idle_ms
    }

    /// A tracker that was last active at the moment `now`. The setting zero
    /// stands for no limit.
    pub fn new_at(max_idle_ms: u64, now: Instant) -> (tracker: IdleTracker)
        ensures
            tracker.limit() == spec_limit(max_idle_ms),
            tracker.last_active() == now,
    {
        let mut max_idle_ms_local = max_idle_ms;
        if max_idle_ms_local == 0 {
            max_idle_ms_local = u64::MAX;
        }
        IdleTracker { last_active: now, max_idle_ms: max_idle_ms_local }
    }

    /// A tracker that was active just now: at the moment that the clock
    /// gives, as `new_at` makes it. The setting zero stands for no limit.
    pub fn new(max_idle_ms: u64) -> (tracker: IdleTracker)
        ensures
            tracker.limit() == spec_limit(max_idle_ms),
    {
        let last_active = clock_now();
        Self::new_at(max_idle_ms, last_active)
    }

    /// Notes activity at the moment `now`, and returns the moment of the
    /// activity before.
    pub fn mark_at(&mut self, now: Instant) -> (before: Instant)
        ensures
            before == old(self).last_active(),
            final(self).last_active() == now,
            final(self).limit() == old(self).limit(),
    {
        let result = self.last_active;
        self.last_active = now;
        result
    }

    /// Notes activity at this moment, and returns the moment of the
    /// activity before. The moment is read from the clock and noted by
    /// `mark_at`.
    pub fn mark(&mut self) -> (before: Instant)
        ensures
            before == old(self).last_active(),
            final(self).limit() == old(self).limit(),
    {
        let now = clock_now();
        self.mark_at(now)
    }

    /// The limit in milliseconds.
    pub fn max_idle(&self) -> (ms: u64)
        ensures
            ms == self.limit(),
    {
        self.max_idle_ms
    }

    /// Tells whether an idle time, in nanoseconds, is over a limit, in
    /// milliseconds.
    pub fn expired_after(idle_nanos: u128, limit_ms: u64) -> (expired: bool)
        ensures
            expired == spec_expired(idle_nanos, limit_ms),
    {
        idle_nanos > (limit_ms as u128) * NANOS_PER_MILLI
    }

    /// Tells whether the connection has been idle for longer than its
    /// limit. A tracker whose limit is off is never expired, and the clock
    /// is not asked. Else the idle time is read from the clock, and the answer
    /// is that of `expired_after` on it.
    pub fn is_expired(&self) -> (expired: bool)
        ensures
            self.limit() == u64::MAX ==> !expired,
            exists|idle_nanos: u128|
                idle_nanos <= MAX_DURATION_NANOS && expired == spec_expired(
                    idle_nanos,
                    self.limit(),
                ),
    {
        if self.max_idle_ms == u64::MAX {
            assert(!spec_expired(0u128, self.limit()));
            return false;
        }
        let idle = nanos_since(&self.last_active);
        let expired = Self::expired_after(idle, self.max_idle_ms);
        assert(idle <= MAX_DURATION_NANOS && expired == spec_expired(idle, self.limit()));
        expired
    }

    /// The time since the last activity, in nanoseconds, as the clock gives
    /// it. It is within what a `Duration` can hold.
    pub fn idled_for(&self) -> (idle_nanos: u128)
        ensures
            idle_nanos <= MAX_DURATION_NANOS,
    {
        nanos_since(&self.last_active)
    }
}

} // verus!
