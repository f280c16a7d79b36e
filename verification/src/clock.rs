//! The current time, as seconds since the Unix epoch.

use vstd::prelude::*;

verus! {

/// Relies on chrono's `Utc::now` and `DateTime::timestamp` for the current
/// wall-clock time in whole seconds. Nothing is promised of the value: the
/// clock may read anything, and every caller states what holds whatever came
/// back.
#[verifier::external_body]
pub(crate) fn now_seconds() -> i64 {
    chrono::Utc::now().timestamp()
}

} // verus!
