use vstd::prelude::*;

verus! {

/// Minimum initial LP share, burnt on the first provision.
pub const MINIMUM_LIQUIDITY_AMOUNT: u128 = 1_000;

} // verus!
