//! The one place the crate reads the system clock.

use vstd::prelude::*;

verus! {

/// Relies on `chrono::Utc::now` for the current time; the result is a
/// human-readable UTC timestamp.  Nothing is promised of it: the clock
/// is outside the program.
#[verifier::external_body]
pub(crate) fn now_timestamp() -> String {
    chrono::Utc::now().format("%Y-%m-%d %H:%M:%S UTC").to_string()
}

} // verus!
