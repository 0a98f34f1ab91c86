//! A keyed cooldown gate: each key accepts a call only once a minimum interval has passed since
//! the last call it accepted.
use vstd::prelude::*;
use crate::text::{decimal, push_decimal};

verus! {

/// The operations whose frequency is bounded.
#[derive(Debug, Clone, Copy, PartialEq, Eq, Hash, Structural)]
pub enum RateLimitKey {
    DistroMetrics,
    SystemMetrics,
    DistroList,
}

/// The slot that holds a key's last accepted call.
pub open spec fn key_index(key: RateLimitKey) -> int {
    match key {
        RateLimitKey::DistroMetrics => 0,
        RateLimitKey::SystemMetrics => 1,
        RateLimitKey::DistroList => 2,
    }
}

impl RateLimitKey {
    /// The key's name.
    pub fn as_str(&self) -> (r: &'static str)
        ensures
            r@ == match self {
                RateLimitKey::DistroMetrics => "distro_metrics"@,
                RateLimitKey::SystemMetrics => "system_metrics"@,
                RateLimitKey::DistroList => "distro_list"@,
            },
    {
        match self {
            RateLimitKey::DistroMetrics => "distro_metrics",
            RateLimitKey::SystemMetrics => "system_metrics",
            RateLimitKey::DistroList => "distro_list",
        }
    }

}

/// The time, in milliseconds of a monotonic clock, of each key's last accepted call.
pub struct RateLimiter {
    distro_metrics: Option<u64>,
    system_metrics: Option<u64>,
    distro_list: Option<u64>,
}

impl View for RateLimiter {
    type V = Seq<Option<u64>>;

    closed spec fn view(&self) -> Seq<Option<u64>> {
        seq![self.distro_metrics, self.system_metrics, self.distro_list]
    }
}

/// The time elapsed from `last` to `now`; a clock that reads earlier counts as none.
pub open spec fn elapsed(last: u64, now: u64) -> int {
    if now >= last {
        now - last
    } else {
        0
    }
}

/// How long a call of `key` at `now` still has to wait, or `None` when it may go ahead.
pub open spec fn wait_left(limits: Seq<Option<u64>>, key: RateLimitKey, min_interval_ms: u64, now: u64) -> Option<int> {
    match limits[key_index(key)] {
        Some(last) => if elapsed(last, now) < min_interval_ms {
            Some(min_interval_ms - elapsed(last, now))
        } else {
            None
        },
        None => None,
    }
}

/// The last accepted calls after a check of `key` at `now`: an accepted call records `now`, a
/// rejected one changes nothing.
pub open spec fn after_check(limits: Seq<Option<u64>>, key: RateLimitKey, min_interval_ms: u64, now: u64) -> Seq<Option<u64>> {
    if wait_left(limits, key, min_interval_ms, now) is None {
        limits.update(key_index(key), Some(now))
    } else {
        limits
    }
}

impl RateLimiter {
    /// A limiter that has accepted no call yet.
    pub fn new() -> (r: RateLimiter)
        ensures
            r@ == seq![None::<u64>, None::<u64>, None::<u64>],
    {
        RateLimiter { distro_metrics: None, system_metrics: None, distro_list: None }
    }

    fn last_call(&self, key: RateLimitKey) -> (r: Option<u64>)
        ensures
            r == self@[key_index(key)],
    {
        match key {
            RateLimitKey::DistroMetrics => self.distro_metrics,
            RateLimitKey::SystemMetrics => self.system_metrics,
            RateLimitKey::DistroList => self.distro_list,
        }
    }

    fn record(&mut self, key: RateLimitKey, now: u64)
        ensures
            final(self)@ == old(self)@.update(key_index(key), Some(now)),
    {
        match key {
            RateLimitKey::DistroMetrics => self.distro_metrics = Some(now),
            RateLimitKey::SystemMetrics => self.system_metrics = Some(now),
            RateLimitKey::DistroList => self.distro_list = Some(now),
        }
        assert(self@ =~= old(self)@.update(key_index(key), Some(now)));
    }
}

/// Accepts a call of `key` at `now` and records it, unless less than `min_interval_ms` has
/// passed since the last accepted call of that key; then it is refused with the time left to
/// wait, and nothing is recorded.
pub fn rate_limit(limits: &mut RateLimiter, key: RateLimitKey, min_interval_ms: u64, now: u64) -> (r: Result<(), String>)
    ensures
        final(limits)@ == after_check(old(limits)@, key, min_interval_ms, now),
        match wait_left(old(limits)@, key, min_interval_ms, now) {
            None => r is Ok,
            Some(w) => r is Err && r->Err_0@ == "Rate limited - wait "@ + decimal(w as nat) + "ms"@,
        },
{
    if let Some(last) = limits.last_call(key) {
        let elapsed: u64 = if now >= last { now - last } else { 0 };
        if elapsed < min_interval_ms {
            let mut message = String::from_str("Rate limited - wait ");
            push_decimal(&mut message, min_interval_ms - elapsed);
            message.append("ms");
            return Err(message);
        }
    }
    limits.record(key, now);
    Ok(())
}

/// Whether a call of `key` at `now` would be refused; nothing is recorded.
pub fn is_rate_limited(limits: &RateLimiter, key: RateLimitKey, min_interval_ms: u64, now: u64) -> (r: bool)
    ensures
        r == wait_left(limits@, key, min_interval_ms, now) is Some,
{
    match limits.last_call(key) {
        Some(last) => {
            let elapsed: u64 = if now >= last { now - last } else { 0 };
            elapsed < min_interval_ms
        },
        None => false,
    }
}

/// Every limiter holds one slot for each key.
pub proof fn lemma_one_slot_per_key(limiter: &RateLimiter)
    ensures
        limiter@.len() == 3,
{
}

/// For a limiter in any state: a key that was just accepted is refused until
/// `min_interval_ms` has passed (and the refusal changes nothing), and accepted again from then
/// on.
pub proof fn cooldown_reopens(limiter: &RateLimiter, key: RateLimitKey, min_interval_ms: u64, t0: u64, t1: u64, t2: u64)
    requires
        wait_left(limiter@, key, min_interval_ms, t0) is None,
        t0 <= t1,
        t1 - t0 < min_interval_ms,
        t0 <= t2,
        t2 - t0 >= min_interval_ms,
    ensures
        ({
            let accepted = after_check(limiter@, key, min_interval_ms, t0);
            &&& wait_left(accepted, key, min_interval_ms, t1) == Some(min_interval_ms - (t1 - t0))
            &&& after_check(accepted, key, min_interval_ms, t1) == accepted
            &&& wait_left(accepted, key, min_interval_ms, t2) is None
            &&& after_check(accepted, key, min_interval_ms, t2)[key_index(key)] == Some(t2)
        }),
{
    lemma_one_slot_per_key(limiter);
}

} // verus!
