//! Timestamps as plain integers, checked against the range of dates that
//! `chrono` can represent.

use vstd::prelude::*;

verus! {

/// Whether `DateTime::<Utc>::from_timestamp(secs, 0)` gives a date.
pub uninterp spec fn chrono_seconds_ok(secs: i64) -> bool;

/// Whether `DateTime::<Utc>::from_timestamp_millis(millis)` gives a date.
pub uninterp spec fn chrono_millis_ok(millis: i64) -> bool;

/// Relies on chrono's `DateTime::<Utc>::from_timestamp`: whether a date
/// exists that many seconds from the Unix epoch.
#[verifier::external_body]
fn seconds_in_range(secs: i64) -> (r: bool)
    ensures
        r == chrono_seconds_ok(secs),
{
    chrono::DateTime::<chrono::Utc>::from_timestamp(secs, 0).is_some()
}

/// Relies on chrono's `DateTime::<Utc>::from_timestamp_millis`: whether a
/// date exists that many milliseconds from the Unix epoch.
#[verifier::external_body]
fn millis_in_range(millis: i64) -> (r: bool)
    ensures
        r == chrono_millis_ok(millis),
{
    chrono::DateTime::<chrono::Utc>::from_timestamp_millis(millis).is_some()
}

/// Whether a timestamp in the given unit names a representable date.
pub open spec fn timestamp_ok(n: i64, millis: bool) -> bool {
    if millis {
        chrono_millis_ok(n)
    } else {
        chrono_seconds_ok(n)
    }
}

/// Checks a timestamp in seconds, or in milliseconds when `millis` is set.
pub fn timestamp_in_range(n: i64, millis: bool) -> (r: bool)
    ensures
        r == timestamp_ok(n, millis),
{
    if millis {
        millis_in_range(n)
    } else {
        seconds_in_range(n)
    }
}

} // verus!
