use vstd::prelude::*;

verus! {

/// Reads the clock with `chrono::Utc::now` and hands out the moment as
/// milliseconds since the Unix epoch (`chrono::DateTime::timestamp_millis`).
/// Nothing is claimed of the value. `Utc::now` panics where the system's
/// clock stands before the epoch.
#[verifier::external_body]
pub(crate) fn now_millis() -> (millis: i64) {
    chrono::Utc::now().timestamp_millis()
}

} // verus!
