use std::time::Duration;
use std::time::Instant;
use vstd::prelude::*;

verus! {

/// A reading of the monotonic clock. Nothing is known of what is inside.
#[verifier::external_type_specification]
#[verifier::external_body]
pub struct ExInstant(std::time::Instant);

/// `Instant::now` reads the monotonic clock. Nothing is claimed of the reading.
pub assume_specification[ std::time::Instant::now ]() -> (now: Instant);

/// `Instant::checked_duration_since` gives the time from `earlier` to `later`,
/// or `None` where `earlier` is the later of the two. Which of the two comes
/// back depends on the clock, so nothing is claimed of it.
pub assume_specification[ std::time::Instant::checked_duration_since ](
    later: &Instant,
    earlier: Instant,
) -> (elapsed: Option<Duration>);

/// `Duration::as_nanos` gives the whole duration in nanoseconds. Nothing is
/// claimed of the number.
pub assume_specification[ std::time::Duration::as_nanos ](duration: &Duration) -> (nanos: u128);

/// The nanoseconds from `start` to `end`, or `None` where the clock ran
/// backwards between the two readings.
pub(crate) fn elapsed_nanos(start: Instant, end: Instant) -> (reading: Option<u128>) {
    match end.checked_duration_since(start) {
        Some(elapsed) => Some(elapsed.as_nanos()),
        None => None,
    }
}

} // verus!
