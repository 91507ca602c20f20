//! Time steps of the IMU worker.
//!
//! The attitude estimator integrates over the time between two samples, so
//! the first sample, which has no predecessor, is passed through without
//! being fused.

use vstd::prelude::*;

verus! {

/// Time of the previous sample, in microseconds of a monotonic clock.
pub struct SampleClock {
    pub last_sample_us: Option<u64>,
}

impl SampleClock {
    pub fn new() -> (r: Self)
        ensures
            r.last_sample_us is None,
    {
        SampleClock { last_sample_us: None }
    }

    /// Records a sample taken at `now_us` and returns the time since the
    /// previous one: nothing for the first sample, zero if the clock went
    /// backwards.
    pub fn tick(&mut self, now_us: u64) -> (dt_us: Option<u64>)
        ensures
            final(self).last_sample_us == Some(now_us),
            old(self).last_sample_us is None ==> dt_us is None,
            old(self).last_sample_us matches Some(last) ==> dt_us == Some(
                if now_us >= last {
                    (now_us - last) as u64
                } else {
                    0u64
                },
            ),
    {
        let dt_us = match self.last_sample_us {
            Some(last) => Some(now_us.saturating_sub(last)),
            None => None,
        };
        self.last_sample_us = Some(now_us);
        dt_us
    }
}

} // verus!
