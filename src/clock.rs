//! The clocks that spans read.
use vstd::prelude::*;

verus! {

#[verifier::external_type_specification]
#[verifier::external_body]
pub struct ExInstant(std::time::Instant);

#[verifier::external_type_specification]
#[verifier::external_body]
pub struct ExSystemTime(std::time::SystemTime);

/// Relies on std's `Instant::now`: a reading of the monotonic clock.
pub assume_specification[ std::time::Instant::now ]() -> std::time::Instant;

/// Relies on std's `Instant::elapsed`: the time passed since the reading.
pub assume_specification[ std::time::Instant::elapsed ](i: &std::time::Instant) -> core::time::Duration;

/// Relies on std's `Duration::as_nanos`: the whole nanoseconds of a duration.
pub assume_specification[ core::time::Duration::as_nanos ](d: &core::time::Duration) -> u128;

/// Relies on std's `SystemTime::now`: a reading of the wall clock.
pub assume_specification[ std::time::SystemTime::now ]() -> std::time::SystemTime;

/// Relies on std's `Clone` for `SystemTime`, a `Copy` type: the clone is the same instant.
pub assume_specification[ <std::time::SystemTime as core::clone::Clone>::clone ](
    t: &std::time::SystemTime,
) -> (r: std::time::SystemTime)
    ensures
        r == *t,
;

/// Nanoseconds since `start`, held at `u64::MAX` (about 584 years).
pub(crate) fn nanos_since(start: &std::time::Instant) -> u64 {
    let elapsed = start.elapsed().as_nanos();
    if elapsed > u64::MAX as u128 {
        u64::MAX
    } else {
        elapsed as u64
    }
}

} // verus!
