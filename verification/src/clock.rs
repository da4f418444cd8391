//! The trusted boundary around the wall clock.

use vstd::prelude::*;

verus! {

/// Relies on chrono's `DateTime::<Utc>::from(SystemTime)`, which
/// handles a clock before the Unix epoch without panicking, and on
/// `DateTime::timestamp_millis`: the wall clock as milliseconds since
/// the Unix epoch. Nothing is assumed of the reading, not even a
/// relation between two of them.
#[verifier::external_body]
pub fn now_unix_ms() -> (r: i64)
{
    chrono::DateTime::<chrono::Utc>::from(std::time::SystemTime::now()).timestamp_millis()
}

} // verus!
