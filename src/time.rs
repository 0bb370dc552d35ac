use vstd::prelude::*;

use std::time::{Duration, Instant};

verus! {

#[verifier::external_type_specification]
#[verifier::external_body]
pub struct ExInstant(Instant);

/// Relies on std::time::Instant::now: reads the monotonic clock, nothing is
/// known of the value.
#[verifier::external_body]
fn instant_now() -> (r: Instant) {
    Instant::now()
}

/// Relies on std::time::Instant::duration_since: the time from `earlier` to
/// `later`, zero when `earlier` is the later one.
#[verifier::external_body]
fn instant_duration_since(later: &Instant, earlier: &Instant) -> (r: Duration) {
    later.duration_since(*earlier)
}

/// A point in time of the monotonic clock.
#[derive(Clone, Copy, Debug)]
pub struct Time(Instant);

impl Time {
    /// The current time.
    pub fn now() -> (r: Time) {
        Time(instant_now())
    }

    /// The time elapsed from `other` to this point.
    pub fn duration_since(&self, other: &Time) -> (r: Duration) {
        instant_duration_since(&self.0, &other.0)
    }
}

} // verus!
