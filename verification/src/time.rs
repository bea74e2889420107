//! Access to the wall clock.

use vstd::prelude::*;

verus! {

/// Relies on `chrono::Utc::now` and `DateTime::timestamp`: the current
/// wall-clock time as whole seconds since the UNIX epoch.  The value
/// depends on the machine's clock, so nothing is promised of it; every
/// caller states what holds for an arbitrary reading.
#[verifier::external_body]
pub(crate) fn now_epoch_seconds() -> i64 {
    chrono::Utc::now().timestamp()
}

} // verus!
