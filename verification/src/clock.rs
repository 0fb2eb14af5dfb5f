//! The monotonic clock that paces the ritual.

use vstd::prelude::*;
use std::time::{Duration, Instant};

verus! {

#[verifier::external_type_specification]
#[verifier::external_body]
pub struct ExInstant(Instant);

/// `std::time::Instant::now`: a reading of the monotonic clock; nothing is
/// promised of it.
#[verifier::external_body]
pub fn instant_now() -> Instant {
    Instant::now()
}

/// `Instant::elapsed`: the time since `t`; nothing is promised of it.
#[verifier::external_body]
pub fn instant_elapsed(t: &Instant) -> Duration {
    t.elapsed()
}

/// `Duration::as_millis`: whole milliseconds of `d`; nothing is stated of the
/// number, since a `Duration` is opaque here.
#[verifier::external_body]
pub fn duration_as_millis(d: &Duration) -> u128 {
    d.as_millis()
}

/// `Duration::as_nanos`: whole nanoseconds of `d`; nothing is stated of the
/// number, since a `Duration` is opaque here.
#[verifier::external_body]
pub fn duration_as_nanos(d: &Duration) -> u128 {
    d.as_nanos()
}

} // verus!
