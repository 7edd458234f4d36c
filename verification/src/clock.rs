//! The one place the engine reads the wall clock.

use vstd::prelude::*;

verus! {

/// Relies on chrono's `Utc::now` and `DateTime::timestamp`: the current
/// wall-clock time as whole seconds since the Unix epoch.  Nothing can be
/// promised of the value; every function whose outcome depends on it takes
/// the timestamp as an argument and is verified for all values of it.
#[verifier::external_body]
pub(crate) fn now_unix() -> i64 {
    chrono::Utc::now().timestamp()
}

} // verus!
