//! The wall clock.

use vstd::prelude::*;

verus! {

/// Milliseconds in one second.
pub const MILLIS_PER_SECOND: i64 = 1_000;

/// Milliseconds in one hour.
pub const MILLIS_PER_HOUR: i64 = 3_600_000;

/// Milliseconds in one day.
pub const MILLIS_PER_DAY: i64 = 86_400_000;

/// The current instant, in milliseconds since the Unix epoch.
///
/// Calls `chrono::Utc::now` and reads the instant with
/// `DateTime::timestamp_millis`. Nothing is claimed of the value: it depends on
/// when the call is made.
#[verifier::external_body]
pub(crate) fn now_millis() -> i64 {
    chrono::Utc::now().timestamp_millis()
}

} // verus!
