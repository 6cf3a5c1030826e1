//! The wall clock, read in whole seconds.

use vstd::prelude::*;

verus! {

/// Reads `std::time::SystemTime::now` as seconds since the Unix epoch, zero
/// if the clock stands before the epoch. Nothing is claimed of the value: it
/// differs from call to call.
#[verifier::external_body]
pub(crate) fn unix_now() -> (now: u64) {
    std::time::SystemTime::now().duration_since(std::time::UNIX_EPOCH).map_or(0, |d| d.as_secs())
}

} // verus!
