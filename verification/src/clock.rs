//! The system clock.

use vstd::prelude::*;

verus! {

/// Reads the current time with `chrono::Utc::now` and gives it as
/// microseconds since the Unix epoch (`DateTime::timestamp_micros`).
///
/// Nothing is claimed of the value: two calls may give any two numbers.
/// chrono refuses to run on a machine whose clock stands before 1970.
#[verifier::external_body]
pub(crate) fn now_micros() -> i64 {
    chrono::Utc::now().timestamp_micros()
}

} // verus!
