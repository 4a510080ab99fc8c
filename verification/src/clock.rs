//! The wall-clock source consumed, but not implemented, by this crate.

use vstd::prelude::*;

verus! {

/// Relies on `chrono::Utc::now` and `DateTime::timestamp_millis`: the
/// current UTC time in milliseconds since the Unix epoch. Nothing can be
/// promised of the clock's reading, so no contract is stated; callers say
/// what holds whatever time comes back.
#[verifier::external_body]
pub fn now_millis() -> i64 {
    chrono::Utc::now().timestamp_millis()
}

} // verus!
