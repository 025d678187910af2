//! The monotonic clock and the durations that the pet's behaviour is timed by.

use std::time::{Duration, Instant};
use vstd::prelude::*;

verus! {

/// `std::time::Instant`, carried through the library as an opaque value.
#[verifier::external_type_specification]
#[verifier::external_body]
pub struct ExInstant(Instant);

/// What `Duration::as_nanos` returns for a duration: its whole length in
/// nanoseconds.
pub uninterp spec fn nanos_of(d: Duration) -> u128;

/// What `Instant::saturating_duration_since` returns for a later and an
/// earlier reading of the clock.
pub uninterp spec fn duration_between(later: Instant, earlier: Instant) -> Duration;

/// Reads the monotonic clock with `Instant::now()`. Nothing is promised of
/// the reading: it depends on when the call is made.
#[verifier::external_body]
pub(crate) fn now() -> Instant {
    Instant::now()
}

/// Calls `Instant::saturating_duration_since`: the time from `earlier` to
/// `later`, or zero where `earlier` is the later one. The result is named
/// `duration_between(later, earlier)`; an `Instant` is opaque here, so no
/// more is said of it.
#[verifier::external_body]
pub(crate) fn saturating_duration_since(later: &Instant, earlier: &Instant) -> (d: Duration)
    ensures
        d == duration_between(*later, *earlier),
{
    later.saturating_duration_since(*earlier)
}

/// Calls `Duration::as_nanos`: the whole length of a duration in
/// nanoseconds, named `nanos_of(d)`.
#[verifier::external_body]
pub(crate) fn duration_nanos(d: &Duration) -> (n: u128)
    ensures
        n == nanos_of(*d),
{
    d.as_nanos()
}

/// Calls `Duration::from_millis`: a duration of `ms` milliseconds, that is,
/// of `ms * 1_000_000` nanoseconds as `as_nanos` counts them.
#[verifier::external_body]
pub(crate) fn duration_from_millis(ms: u64) -> (d: Duration)
    ensures
        nanos_of(d) == ms * 1_000_000,
{
    Duration::from_millis(ms)
}

} // verus!
