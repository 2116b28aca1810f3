//! The present instant.

use vstd::prelude::*;

verus! {

/// The present instant in nanoseconds since the Unix epoch.
///
/// Calls `time::OffsetDateTime::now_utc` and converts what it returns with
/// `unix_timestamp_nanos`. Nothing is claimed of the result: two calls may
/// differ, and the clock of the machine may go back.
#[verifier::external_body]
pub(crate) fn now_utc() -> i128 {
    time::OffsetDateTime::now_utc().unix_timestamp_nanos()
}

} // verus!
