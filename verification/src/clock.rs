//! The wall clock, for log lines and scheduler ticks.

use vstd::prelude::*;

verus! {

/// Relies on chrono::Utc::now and its text rendering. The result depends on
/// the moment of the call, so nothing is promised of it.
#[verifier::external_body]
pub fn get_datetime() -> String {
    chrono::Utc::now().to_string()
}

} // verus!
