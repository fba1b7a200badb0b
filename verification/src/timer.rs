//! A polled fixed-interval repeating timer, advanced by wall-clock deltas.

use vstd::prelude::*;

verus! {

/// A repeating fixed-interval timer. Each frame the caller adds the elapsed
/// real time; the timer fires when the accumulated time reaches the
/// configured interval and then resets its accumulator.
#[derive(Clone, Copy, Debug, PartialEq, Eq, Structural)]
pub struct TickTimer {
    /// Milliseconds accumulated since the timer last fired.
    pub elapsed_ms: u64,
    /// The fixed interval between firings, in milliseconds.
    pub interval_ms: u64,
}

impl TickTimer {
    /// A well-formed timer has a positive interval and never holds a full
    /// interval in its accumulator between frames.
    pub open spec fn wf(self) -> bool {
        &&& self.interval_ms > 0
        &&& self.elapsed_ms < self.interval_ms
    }

    /// Whether adding `delta_ms` to the accumulator reaches the interval.
    pub open spec fn fires(self, delta_ms: u64) -> bool {
        self.elapsed_ms + delta_ms >= self.interval_ms
    }

    /// A fresh timer with the given interval and an empty accumulator.
    pub fn new(interval_ms: u64) -> (t: TickTimer)
        requires
            interval_ms > 0,
        ensures
            t.wf(),
            t.interval_ms == interval_ms,
            t.elapsed_ms == 0,
    {
        TickTimer { elapsed_ms: 0, interval_ms }
    }

    /// Advances the timer by `delta_ms` milliseconds. Returns whether the
    /// interval expired; on expiry the accumulator resets to zero.
    pub fn tick(&mut self, delta_ms: u64) -> (fired: bool)
        requires
            old(self).wf(),
            old(self).elapsed_ms + delta_ms <= u64::MAX,
        ensures
            final(self).wf(),
            fired == old(self).fires(delta_ms),
            final(self).interval_ms == old(self).interval_ms,
            final(self).elapsed_ms == if old(self).fires(delta_ms) {
                0u64
            } else {
                (old(self).elapsed_ms + delta_ms) as u64
            },
    {
        let total: u64 = self.elapsed_ms + delta_ms;
        if total >= self.interval_ms {
            self.elapsed_ms = 0;
            true
        } else {
            self.elapsed_ms = total;
            false
        }
    }
}

} // verus!
