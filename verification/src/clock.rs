//! The monotonic clock that drives the frame timer outside of tests, built on
//! `std::time::Instant`. The clock readings themselves carry no contract: what
//! a reading is depends on the wall time of the call, so the verified logic in
//! `timer` is proved for every reading the clock could hand back.

use vstd::prelude::*;

verus! {

/// `std::time::Instant`, declared so that verified code can hold and pass
/// clock readings. A value of it is opaque to the verifier.
#[verifier::external_type_specification]
#[verifier::external_body]
pub struct ExInstant(std::time::Instant);

/// Relies on `std::time::Instant::now`: a reading of the process's monotonic
/// clock. Nothing is assumed of the reading: it depends on the time of the
/// call.
pub assume_specification[ std::time::Instant::now ]() -> std::time::Instant;

/// Relies on `std::time::Instant::saturating_duration_since`: the time from
/// `earlier` to `this`, or zero if `earlier` is the later reading. Both
/// readings are opaque here, so nothing is assumed of the result.
pub assume_specification[ std::time::Instant::saturating_duration_since ](
    this: &std::time::Instant,
    earlier: std::time::Instant,
) -> core::time::Duration;

/// Relies on `core::time::Duration::as_nanos`: the whole duration as a count
/// of nanoseconds. The duration is opaque here, so nothing is assumed of the
/// count.
pub assume_specification[ core::time::Duration::as_nanos ](
    d: &core::time::Duration,
) -> u128;

/// A stopwatch clock: readings count the nanoseconds since the clock was
/// created, never decrease (as far as `std::time::Instant` is monotonic on the
/// platform), and saturate at `u64::MAX` — about 584 years in.
pub struct MonotonicClock {
    origin: std::time::Instant,
}

impl MonotonicClock {
    /// Starts a clock whose readings are measured from this moment.
    pub fn new() -> MonotonicClock {
        MonotonicClock { origin: std::time::Instant::now() }
    }

    /// The clock's current reading, in nanoseconds since the clock was
    /// created. No contract pins the value: it depends on the wall time of the
    /// call.
    pub fn now_ns(&self) -> u64 {
        let since_origin: u128 =
            std::time::Instant::now().saturating_duration_since(self.origin).as_nanos();
        if since_origin > (u64::MAX as u128) {
            u64::MAX
        } else {
            since_origin as u64
        }
    }
}

} // verus!
