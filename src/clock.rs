//! The monotonic clock that the timer reads, in whole milliseconds.
use std::time::Instant;
use vstd::prelude::*;

verus! {

#[verifier::external_type_specification]
#[verifier::external_body]
pub struct ExInstant(std::time::Instant);

/// Relies on `Instant::now`: a reading of the monotonic clock. Nothing is
/// promised of its value.
pub assume_specification[ std::time::Instant::now ]() -> std::time::Instant;

/// Relies on `Instant::elapsed`: the time since the instant, which depends on
/// when it is called. Nothing is promised of its value.
pub assume_specification[ std::time::Instant::elapsed ](i: &std::time::Instant) -> core::time::Duration;

/// Relies on `Duration::as_millis`: the whole milliseconds of a duration.
pub assume_specification[ core::time::Duration::as_millis ](d: &core::time::Duration) -> u128;

/// A monotonic clock whose readings count milliseconds from the moment it
/// was made. Readings never depend on the wall clock, so changes of the
/// system time do not disturb them.
pub struct MonotonicClock {
    pub origin: Instant,
}

impl MonotonicClock {
    /// A clock whose readings start near zero now.
    pub fn new() -> (r: MonotonicClock) {
        MonotonicClock { origin: Instant::now() }
    }

    /// Milliseconds since the clock was made, saturating at `u64::MAX`.
    pub fn now_ms(&self) -> (r: u64) {
        duration_to_ms(self.origin.elapsed())
    }
}

/// Whole milliseconds of a duration, saturating at `u64::MAX` instead of
/// truncating.
pub fn duration_to_ms(d: core::time::Duration) -> (r: u64) {
    let ms: u128 = d.as_millis();
    if ms > u64::MAX as u128 {
        u64::MAX
    } else {
        ms as u64
    }
}

} // verus!
