//! Reading the monotonic clock.
//!
//! Durations measured here depend on when the calls happen, so nothing is
//! promised of them: callers treat every measured value as arbitrary.

use std::time::{Duration, Instant};
use vstd::prelude::*;

verus! {

/// `std::time::Instant`: a reading of the monotonic clock. The library
/// carries readings and never looks into one.
#[verifier::external_type_specification]
#[verifier::external_body]
pub struct ExInstant(Instant);

/// `Duration::clone`: a duration is plain data, and its clone is the same
/// duration.
pub assume_specification[ <Duration as Clone>::clone ](d: &Duration) -> (copy: Duration)
    ensures
        copy == *d,
;

/// `Instant::now`: the current reading of the monotonic clock. The reading
/// differs from call to call, so the contract says nothing of it.
#[verifier::external_body]
pub(crate) fn now() -> (start: Instant) {
    Instant::now()
}

/// `Instant::elapsed`: the time that has passed since `start` was taken.
/// The value depends on the moment of the call, so the contract says
/// nothing of it.
#[verifier::external_body]
pub(crate) fn elapsed_since(start: &Instant) -> (spent: Duration) {
    start.elapsed()
}

/// `Duration::as_nanos`: the length of `span` in nanoseconds, cut to 64
/// bits. The library carries durations without looking into them, so the
/// contract says nothing of the number.
#[verifier::external_body]
pub(crate) fn nanos_of(span: &Duration) -> (nanos: u64) {
    span.as_nanos() as u64
}

} // verus!
