//! The wall clock.

use vstd::prelude::*;

verus! {

/// The current time in seconds since the Unix epoch, read from the system
/// clock through `chrono::Utc::now`. Nothing is promised of the value: two
/// readings need not even be ordered.
#[verifier::external_body]
pub(crate) fn unix_time_now() -> (seconds: i64) {
    chrono::Utc::now().timestamp()
}

} // verus!
