//! Durations as the verified code sees them.

use vstd::prelude::*;
use core::time::Duration;

verus! {

/// The duration that `Duration::from_millis` builds from `millis`.
pub uninterp spec fn duration_of_millis(millis: u64) -> Duration;

/// The duration that `Duration::from_secs` builds from `secs`.
pub uninterp spec fn duration_of_secs(secs: u64) -> Duration;

/// The whole milliseconds that a `Duration` spans, as `Duration::as_millis`
/// counts them.
pub uninterp spec fn duration_millis(d: Duration) -> nat;

/// `Duration::from_millis` builds the duration of exactly `millis`
/// milliseconds.
#[verifier::when_used_as_spec(duration_of_millis)]
pub assume_specification[ Duration::from_millis ](millis: u64) -> (d: Duration)
    ensures
        d == duration_of_millis(millis),
        duration_millis(d) == millis as nat,
;

/// `Duration::from_secs` builds the duration of exactly `secs` seconds, that
/// is a thousand milliseconds for each.
#[verifier::when_used_as_spec(duration_of_secs)]
pub assume_specification[ Duration::from_secs ](secs: u64) -> (d: Duration)
    ensures
        d == duration_of_secs(secs),
        duration_millis(d) == secs as nat * 1000,
;

} // verus!
