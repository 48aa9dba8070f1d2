//! The wall clock, read in one place.
use vstd::prelude::*;

verus! {

/// Seconds since the UNIX epoch, from `std::time::SystemTime::now`; 0 if the
/// clock reads before the epoch. Nothing is claimed of the value: it is the
/// time of the call.
#[verifier::external_body]
pub(crate) fn unix_now() -> u64 {
    std::time::SystemTime::now().duration_since(std::time::UNIX_EPOCH).unwrap_or_default().as_secs()
}

} // verus!
