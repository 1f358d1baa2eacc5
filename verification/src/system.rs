//! The frame timer as the render loop uses it: the verified core of `timer`
//! driven by the real monotonic clock of `clock`. The clock reading taken at a
//! start mark is out of any contract's reach, so each postcondition here says
//! what holds of the timer for every reading the clock could return.

use crate::clock::MonotonicClock;
use crate::timer::FrameTimer;
use crate::timer::clamped_elapsed_ns;
use vstd::prelude::*;

verus! {

/// A frame timer on the process's monotonic clock. Created once before the
/// render loop; the loop calls `time_start` at the top of each iteration,
/// reads `delta` once in between, and calls `time_stop` at the bottom.
pub struct SystemFrameTimer {
    clock: MonotonicClock,
    state: FrameTimer,
}

impl SystemFrameTimer {
    /// The verified timer state: the most recent start mark and the delta
    /// between the two most recent marks, in nanoseconds of the clock.
    pub closed spec fn timer(self) -> FrameTimer {
        self.state
    }

    /// Creates a timer whose initial mark is a clock reading taken now. Before
    /// the first start mark the delta is zero.
    pub fn new() -> (t: SystemFrameTimer)
        ensures
            t.timer().delta_ns() == 0,
    {
        let clock = MonotonicClock::new();
        let now_ns: u64 = clock.now_ns();
        SystemFrameTimer { clock, state: FrameTimer::new(now_ns) }
    }

    /// Marks the start of an iteration: reads the clock, records the elapsed
    /// time since the previous mark (clamped to zero if the reading moved
    /// backward) as the current delta, and moves the mark to the new reading.
    pub fn time_start(&mut self)
        ensures
            final(self).timer().delta_ns() == clamped_elapsed_ns(
                old(self).timer().mark_ns(),
                final(self).timer().mark_ns(),
            ),
    {
        let now_ns: u64 = self.clock.now_ns();
        self.state.time_start(now_ns);
    }

    /// Marks the end of an iteration. A reserved hook for future frame-rate
    /// limiting; it leaves the timer state unchanged, so the delta a later
    /// `delta` call returns is the same as before.
    pub fn time_stop(&mut self)
        ensures
            final(self).timer() == old(self).timer(),
    {
        self.state.time_stop();
    }

    /// The most recently recorded delta, as a count of nanoseconds. Callers
    /// that pace in seconds divide by 10^9.
    pub fn delta(&self) -> (r: u64)
        ensures
            r == self.timer().delta_ns(),
    {
        self.state.delta()
    }
}

} // verus!
