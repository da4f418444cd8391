//! Throttling of the high-frequency status kind.
//!
//! A status record is admitted only when the current time has reached
//! the configured interval past the last admitted one. The state is
//! seeded twice the interval in the past, so the first record is
//! always admitted.

use vstd::prelude::*;

verus! {

/// Per-kind throttling state: the configured minimum spacing and the
/// time of the last admitted record, both in milliseconds.
pub struct Sampler {
    pub interval_ms: i64,
    pub last_emit_ms: i64,
}

impl Sampler {
    /// A record is admitted when the current time is at least the
    /// interval past the last admitted record.
    pub open spec fn spec_eligible(self, now_ms: i64) -> bool {
        now_ms as int >= self.last_emit_ms as int + self.interval_ms as int
    }

    /// A fresh sampler for a configured interval in seconds, seeded
    /// twice the interval before the process start time. The bounds
    /// only keep the millisecond arithmetic inside `i64`.
    pub fn new(interval_s: u64, start_ms: i64) -> (r: Sampler)
        requires
            2000 * (interval_s as int) <= i64::MAX as int,
            start_ms as int - 2000 * (interval_s as int) >= i64::MIN as int,
        ensures
            r.interval_ms == 1000 * (interval_s as int),
            r.last_emit_ms == start_ms as int - 2000 * (interval_s as int),
    {
        proof {
            assert(0 <= 1000 * (interval_s as int) <= 2000 * (interval_s as int));
        }
        let interval_ms: i64 = (interval_s as i64) * 1000;
        Sampler { interval_ms, last_emit_ms: start_ms - 2 * interval_ms }
    }

    pub fn eligible(&self, now_ms: i64) -> (r: bool)
        ensures
            r == self.spec_eligible(now_ms),
    {
        (now_ms as i128) >= (self.last_emit_ms as i128) + (self.interval_ms as i128)
    }

    /// Record that a point of the throttled kind was just admitted.
    pub fn mark_emitted(&mut self, now_ms: i64)
        ensures
            final(self).interval_ms == old(self).interval_ms,
            final(self).last_emit_ms == now_ms,
    {
        self.last_emit_ms = now_ms;
    }
}

/// Law: a sampler fresh from `Sampler::new` admits the first record it
/// is asked about, whatever interval was configured, as long as the
/// clock has not gone backwards past the process start.
pub proof fn lemma_first_always_eligible(s: Sampler, interval_s: u64, start_ms: i64, now_ms: i64)
    requires
        s.interval_ms == 1000 * (interval_s as int),
        s.last_emit_ms == start_ms as int - 2000 * (interval_s as int),
        now_ms >= start_ms,
    ensures
        s.spec_eligible(now_ms),
{
    assert(1000 * (interval_s as int) >= 0);
}

} // verus!
