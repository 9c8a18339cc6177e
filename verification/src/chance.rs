//! The random draws the bot makes, through the `rand` crate.

use vstd::prelude::*;

use rand::Rng;

verus! {

/// Calls `rand::thread_rng().gen_range(low..=high)`. rand documents that the result
/// lies in the inclusive range and that the call panics on an empty range (hence
/// `low <= high`). Which value in the range comes back is left open: it is random.
#[verifier::external_body]
pub(crate) fn random_in_range(low: u32, high: u32) -> (r: u32)
    requires
        low <= high,
    ensures
        low <= r <= high,
{
    rand::thread_rng().gen_range(low..=high)
}

/// Calls `rand::random::<bool>()`. Either value may come back; nothing is promised of it.
#[verifier::external_body]
pub(crate) fn random_flag() -> (r: bool) {
    rand::random::<bool>()
}

} // verus!
