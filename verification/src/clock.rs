//! The clock of the machine.

use vstd::prelude::*;

verus! {

/// The time now, in whole seconds since the start of 1970 in UTC, as
/// `chrono::Utc::now().timestamp()` tells it. Nothing is claimed of the
/// number: it is the clock's. `Utc::now` panics where the clock of the
/// machine stands before 1970 or beyond the years that `chrono` can name;
/// that lies with the machine, and no argument can rule it out.
#[verifier::external_body]
pub(crate) fn unix_timestamp() -> (seconds: i64) {
    chrono::Utc::now().timestamp()
}

} // verus!
