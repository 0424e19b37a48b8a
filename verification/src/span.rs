//! Time spans of the standard library, as far as the uptime needs them.

use vstd::prelude::*;
use std::time::Duration;

verus! {

/// The length of the span `d` in nanoseconds: its whole seconds and its
/// sub-second part taken together.
pub uninterp spec fn duration_nanos(d: Duration) -> nat;

/// The whole milliseconds in the span `d`, which `Duration::as_millis`
/// returns.
pub open spec fn duration_millis(d: Duration) -> nat {
    duration_nanos(d) / 1_000_000
}

/// `Duration::from_millis` makes the span of exactly `millis` milliseconds,
/// with nothing below a millisecond.
pub assume_specification[ Duration::from_millis ](millis: u64) -> (d: Duration)
    ensures
        duration_nanos(d) == millis * 1_000_000,
;

} // verus!
