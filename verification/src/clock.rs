//! The wall clock.

use vstd::prelude::*;

verus! {

/// Nanoseconds per second.
pub const NANOS_PER_SECOND: i64 = 1_000_000_000;

/// Reads the clock: `chrono::Utc::now()`, as `DateTime::timestamp_nanos_opt`
/// gives it, in nanoseconds since the start of 1970; `None` for an instant
/// that does not fit. Nothing is promised about the instant. `Utc::now`
/// panics where the system clock stands before 1970.
#[verifier::external_body]
pub(crate) fn unix_nanos() -> (r: Option<i64>) {
    chrono::Utc::now().timestamp_nanos_opt()
}

/// Whole seconds in a count of nanoseconds, rounded toward zero.
pub open spec fn whole_seconds(nanos: i64) -> i64 {
    if nanos >= 0 {
        (nanos as int / NANOS_PER_SECOND as int) as i64
    } else {
        (-((-(nanos as int)) / NANOS_PER_SECOND as int)) as i64
    }
}

/// Turns nanoseconds into whole seconds. The result is so far inside the
/// range of `i64` that a week can be added to it.
pub fn seconds_of(nanos: i64) -> (r: i64)
    ensures
        r == whole_seconds(nanos),
        -9_223_372_036 <= r <= 9_223_372_036,
{
    nanos / NANOS_PER_SECOND
}

} // verus!
