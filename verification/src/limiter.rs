use vstd::prelude::*;

verus! {

/// Minimum spacing, in clock ticks, between two permitted external calls.
pub const MIN_INTERVAL_TICKS: u64 = 3;

/// How many times one acquisition may test the clock before giving up.
pub const MAX_ATTEMPTS: u64 = 3;

/// Serializes outbound calls to the external service: a call is permitted
/// only when at least `min_interval` ticks have passed since the last
/// permitted call.  The caller reads the clock, asks for a step, and on
/// `Retry` sleeps the returned number of ticks before asking again.
pub struct RateLimiter {
    /// Tick at which the last permitted call went out.
    pub last_call: u64,
    /// Minimum number of ticks between permitted calls.
    pub min_interval: u64,
}

/// Ticks elapsed since the last permitted call, clamped at zero for a
/// clock reading that lies before it.
pub open spec fn elapsed_ticks(last: u64, now: u64) -> int {
    if now >= last {
        now - last
    } else {
        0
    }
}

/// A call at tick `now` may go out iff the minimum spacing has passed.
pub open spec fn permits(l: RateLimiter, now: u64) -> bool {
    elapsed_ticks(l.last_call, now) >= l.min_interval
}

/// Outcome of one acquisition attempt.
#[derive(Clone, Copy, Debug, PartialEq, Eq, Structural)]
pub enum AcquireStep {
    /// The call may go out now; the limiter has recorded `now` as the
    /// moment of the last permitted call.
    Permitted,
    /// Too soon: wait `wait` ticks, then attempt again.
    Retry { wait: u64 },
    /// The attempt ceiling was reached; give up with `RateLimitExceeded`.
    Exceeded,
}

impl RateLimiter {
    /// A fresh limiter behaves as if a call had just gone out at `now`.
    pub fn new(now: u64) -> (r: RateLimiter)
        ensures
            r.last_call == now,
            r.min_interval == MIN_INTERVAL_TICKS,
    {
        RateLimiter { last_call: now, min_interval: MIN_INTERVAL_TICKS }
    }

    /// One attempt of `acquire`, numbered from `attempt == 0`.  Updates
    /// `last_call` only when the call is actually permitted; a rejected
    /// attempt leaves the limiter unchanged, so waiting itself never
    /// delays a later caller.
    pub fn acquire_step(&mut self, now: u64, attempt: u64) -> (r: AcquireStep)
        ensures
            permits(*old(self), now) ==> r is Permitted
                && final(self).last_call == now
                && final(self).min_interval == old(self).min_interval,
            !permits(*old(self), now) ==> *final(self) == *old(self),
            !permits(*old(self), now) && attempt + 1 >= MAX_ATTEMPTS ==> r is Exceeded,
            !permits(*old(self), now) && attempt + 1 < MAX_ATTEMPTS ==> (r matches AcquireStep::Retry { wait }
                && wait == old(self).min_interval - elapsed_ticks(old(self).last_call, now)),
    {
        let elapsed: u64 = if now >= self.last_call {
            now - self.last_call
        } else {
            0
        };
        if elapsed >= self.min_interval {
            self.last_call = now;
            AcquireStep::Permitted
        } else if attempt >= MAX_ATTEMPTS - 1 {
            AcquireStep::Exceeded
        } else {
            AcquireStep::Retry { wait: self.min_interval - elapsed }
        }
    }
}

/// Two permitted calls are never closer together than the minimum
/// interval: if the limiter permits a call at `t1` and, with `t1`
/// recorded, permits another at a later reading `t2`, the two readings
/// are at least `min_interval` ticks apart.
pub proof fn lemma_min_spacing(l0: RateLimiter, t1: u64, t2: u64)
    requires
        permits(l0, t1),
        permits((RateLimiter { last_call: t1, min_interval: l0.min_interval }), t2),
        t1 <= t2,
    ensures
        t2 - t1 >= l0.min_interval,
{
}

} // verus!
