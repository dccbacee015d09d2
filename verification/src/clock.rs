//! The wall clock.

use vstd::prelude::*;

verus! {

/// Reads the wall clock through `chrono::Utc::now()` and returns its
/// `timestamp()`: whole seconds since the Unix epoch.
///
/// Nothing is claimed of the value: it is whatever the system's clock says.
/// `now` stops the program where that clock stands before the epoch.
#[verifier::external_body]
pub(crate) fn unix_now() -> (now: i64) {
    chrono::Utc::now().timestamp()
}

} // verus!
