//! The current time, from `chrono`.
use vstd::prelude::*;

verus! {

/// Calls `chrono::Utc::now` and formats the instant with `to_rfc3339`.
/// Trusted only to return: the time is the machine's, so no clause states
/// what it is.
#[verifier::external_body]
pub(crate) fn now_rfc3339() -> (r: String) {
    chrono::Utc::now().to_rfc3339()
}

} // verus!
