//! Small helpers.

use vstd::prelude::*;

verus! {

/// The percentage of tokens a battle burns. There is no source of
/// randomness here: the least percentage is always chosen.
pub fn random_burn_percentage(min_burn: u64, max_burn: u64) -> (r: u64)
    ensures
        r == min_burn,
{
    min_burn
}

} // verus!
