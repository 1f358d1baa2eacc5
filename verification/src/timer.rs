//! The frame timer's verified core: a stopwatch over clock readings that the
//! caller injects, given as nanosecond counts of a monotonic clock.

use vstd::prelude::*;

verus! {

/// The elapsed nanoseconds from the reading `last_mark_ns` to the reading
/// `now_ns`, clamped to zero when the clock moved backward: downstream
/// consumers of a frame delta assume a non-negative elapsed time.
pub open spec fn clamped_elapsed_ns(last_mark_ns: u64, now_ns: u64) -> u64 {
    if now_ns >= last_mark_ns {
        (now_ns - last_mark_ns) as u64
    } else {
        0u64
    }
}

/// A per-frame stopwatch. Each loop iteration hands it one clock reading at
/// its start mark; the timer records the elapsed time since the previous mark
/// as the current delta. The clock itself stays outside: callers pass readings
/// in, so any time source — including a fake clock in tests — can drive it.
pub struct FrameTimer {
    last_mark_ns: u64,
    current_delta_ns: u64,
}

impl FrameTimer {
    /// The clock reading recorded by the most recent start mark.
    pub closed spec fn mark_ns(self) -> u64 {
        self.last_mark_ns
    }

    /// The elapsed nanoseconds between the two most recent start marks; zero
    /// before the first start mark.
    pub closed spec fn delta_ns(self) -> u64 {
        self.current_delta_ns
    }

    /// Creates a timer whose initial mark is the given clock reading. Before
    /// the first start mark the delta is defined to be zero.
    pub fn new(now_ns: u64) -> (t: FrameTimer)
        ensures
            t.mark_ns() == now_ns,
            t.delta_ns() == 0,
    {
        FrameTimer { last_mark_ns: now_ns, current_delta_ns: 0 }
    }

    /// Marks the start of an iteration: records the time elapsed since the
    /// previous mark (clamped to zero if the reading moved backward) as the
    /// current delta, and moves the mark to the new reading.
    pub fn time_start(&mut self, now_ns: u64)
        ensures
            final(self).mark_ns() == now_ns,
            final(self).delta_ns() == clamped_elapsed_ns(old(self).mark_ns(), now_ns),
    {
        self.current_delta_ns = if now_ns >= self.last_mark_ns {
            now_ns - self.last_mark_ns
        } else {
            0
        };
        self.last_mark_ns = now_ns;
    }

    /// Marks the end of an iteration. A reserved hook for future frame-rate
    /// limiting; it performs no measurement and leaves the timer unchanged.
    pub fn time_stop(&mut self)
        ensures
            *final(self) == *old(self),
    {
    }

    /// The most recently recorded delta, as a count of nanoseconds. Callers
    /// that pace in seconds divide by 10^9.
    pub fn delta(&self) -> (r: u64)
        ensures
            r == self.delta_ns(),
    {
        self.current_delta_ns
    }
}

/// Law: the delta after any start mark is exactly the clock time elapsed since
/// the previous start mark, whenever the clock did not move backward between
/// the two. Here `t1` is the timer after the earlier start mark and `t2` the
/// timer after the next one; the premise on `t2.delta_ns()` is the
/// postcondition of that second `time_start` call.
pub proof fn lemma_delta_is_elapsed(t1: FrameTimer, t2: FrameTimer)
    requires
        t2.delta_ns() == clamped_elapsed_ns(t1.mark_ns(), t2.mark_ns()),
        t1.mark_ns() <= t2.mark_ns(),
    ensures
        t2.delta_ns() == t2.mark_ns() - t1.mark_ns(),
{
}

/// Law: a start mark with the clock reading unchanged records a delta of zero.
pub proof fn lemma_constant_clock_zero_delta(mark_ns: u64)
    ensures
        clamped_elapsed_ns(mark_ns, mark_ns) == 0,
{
}

/// Law: a clock reading that moved backward between two start marks is
/// clamped: the recorded delta is zero — and, being an unsigned count, a delta
/// is never negative.
pub proof fn lemma_backward_clock_clamps(prev_mark_ns: u64, now_ns: u64)
    requires
        now_ns < prev_mark_ns,
    ensures
        clamped_elapsed_ns(prev_mark_ns, now_ns) == 0,
{
}

} // verus!
