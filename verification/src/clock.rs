//! The monotonic clock that stage timings are read from.

use std::time::{Duration, Instant};
use vstd::prelude::*;

verus! {

/// `std::time::Instant`, a reading of the monotonic clock, carried as an
/// opaque value.
#[verifier::external_type_specification]
#[verifier::external_body]
pub struct ExInstant(Instant);

/// Reads the clock with `Instant::now`. The reading depends on when the call
/// is made, so nothing is stated of it.
#[verifier::external_body]
pub(crate) fn now() -> Instant {
    Instant::now()
}

/// The time that has passed since `start`, by `Instant::elapsed`. It depends
/// on when the call is made, so nothing is stated of it.
#[verifier::external_body]
pub(crate) fn elapsed_since(start: &Instant) -> Duration {
    start.elapsed()
}

/// A duration in whole microseconds, by `Duration::as_micros`. Durations
/// are opaque here, so nothing is stated of the number.
#[verifier::external_body]
pub(crate) fn duration_micros(duration: &Duration) -> u128 {
    duration.as_micros()
}

/// The whole microseconds that have passed since `start`.
pub(crate) fn micros_since(start: &Instant) -> u128 {
    let passed = elapsed_since(start);
    duration_micros(&passed)
}

} // verus!
