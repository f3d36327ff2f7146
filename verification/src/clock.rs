//! Monotonic time used by toggles, caches and timers.
use vstd::prelude::*;
use std::time::{Duration, Instant};

verus! {

/// `std::time::Instant`, carried through the library as an opaque value.
#[verifier::external_type_specification]
#[verifier::external_body]
pub struct ExInstant(Instant);

/// Calls `Instant::now`. The moment it returns depends on the machine clock,
/// so nothing is stated of it.
#[verifier::external_body]
pub(crate) fn instant_now() -> (now: Instant) {
    Instant::now()
}

/// Calls `Instant::elapsed`. The duration depends on the clock; nothing is
/// stated of it.
#[verifier::external_body]
pub(crate) fn instant_elapsed(since: &Instant) -> (elapsed: Duration) {
    since.elapsed()
}

/// Calls `Duration::as_millis`. The duration is opaque here, so nothing is
/// stated of the count.
#[verifier::external_body]
pub(crate) fn duration_as_millis(duration: &Duration) -> (ms: u128) {
    duration.as_millis()
}

/// Calls `Duration::as_secs`. The duration is opaque here, so nothing is
/// stated of the count.
#[verifier::external_body]
pub(crate) fn duration_as_secs(duration: &Duration) -> (secs: u64) {
    duration.as_secs()
}

/// Whole milliseconds since `since`, by the machine clock. The count rests
/// on the clock, so no clause states it.
pub(crate) fn elapsed_millis(since: &Instant) -> (ms: u128) {
    let elapsed = instant_elapsed(since);
    duration_as_millis(&elapsed)
}

/// Whole seconds since `since`, by the machine clock. The count rests on
/// the clock, so no clause states it.
pub(crate) fn elapsed_secs(since: &Instant) -> (secs: u64) {
    let elapsed = instant_elapsed(since);
    duration_as_secs(&elapsed)
}

} // verus!
