//! The current time, read by the `chrono` crate.

use crate::pet::Timestamp;
use vstd::prelude::*;

verus! {

/// `chrono::Utc::now`, taken apart with `DateTime::timestamp` and
/// `DateTime::timestamp_subsec_nanos`. It counts from the system clock's
/// distance to 1970-01-01 00:00:00 UTC, so the seconds are not negative and
/// the nanoseconds stay below one second. On a clock set before 1970 it
/// panics.
#[verifier::external_body]
pub(crate) fn utc_now() -> (now: Timestamp)
    ensures
        now.secs >= 0,
        now.nanos < 1_000_000_000,
{
    let now = chrono::Utc::now();
    Timestamp { secs: now.timestamp(), nanos: now.timestamp_subsec_nanos() }
}

} // verus!
