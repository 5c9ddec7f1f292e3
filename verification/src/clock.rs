//! Wall-clock readings. Nothing about their values is assumed: every
//! verified decision that depends on time takes the reading as an input.

use std::time::{Duration, Instant};
use vstd::prelude::*;

verus! {

/// `std::time::Instant`, carried through the library without inspection.
#[verifier::external_type_specification]
#[verifier::external_body]
pub struct ExInstant(Instant);

/// `Instant::now()`: the current instant. Nothing is stated of its value.
#[verifier::external_body]
pub(crate) fn now() -> Instant {
    Instant::now()
}

/// `Instant::elapsed`: the time since `start` (zero if `start` is later).
/// Nothing is stated of the value, which depends on the clock.
#[verifier::external_body]
pub(crate) fn elapsed(start: &Instant) -> Duration {
    start.elapsed()
}

/// `Duration::as_micros`: the whole microseconds of `d`. Nothing is stated:
/// `Duration` is opaque here.
#[verifier::external_body]
pub(crate) fn as_micros(d: &Duration) -> u128 {
    d.as_micros()
}

/// `Duration::as_nanos`: the whole nanoseconds of `d`. Nothing is stated:
/// `Duration` is opaque here.
#[verifier::external_body]
pub(crate) fn as_nanos(d: &Duration) -> u128 {
    d.as_nanos()
}

/// Whole microseconds since `start`, truncated to `u64` as the timings keep
/// them. Nothing is known of the value, which depends on the clock.
pub(crate) fn elapsed_micros(start: &Instant) -> u64 {
    as_micros(&elapsed(start)) as u64
}

/// `Instant::duration_since`: the time from `start` to `end`, zero if
/// `start` is later. Nothing is stated of the value.
#[verifier::external_body]
pub(crate) fn duration_between(end: &Instant, start: &Instant) -> Duration {
    end.duration_since(*start)
}

} // verus!
