//! The wall clock.

use vstd::prelude::*;

verus! {

/// `chrono::Utc::now` read through `DateTime::timestamp_millis`: the current
/// time in milliseconds since the epoch. Nothing is promised of the value:
/// two calls may differ. `Utc::now` takes the system clock to stand at or
/// after the start of 1970.
#[verifier::external_body]
pub(crate) fn now_millis() -> i64 {
    chrono::Utc::now().timestamp_millis()
}

} // verus!
