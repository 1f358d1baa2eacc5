//! A frame-pacing timer for render loops.
//!
//! The timer is marked once at the top of every loop iteration; the elapsed
//! time between the two most recent marks is the frame delta, the pacing
//! signal that time-based animation reads once per frame. Time is counted in
//! whole nanoseconds of a monotonic clock, and a reading that moved backward
//! is clamped so that the delta is never negative.

pub mod clock;
pub mod system;
pub mod timer;
