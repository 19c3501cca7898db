use vstd::prelude::*;

use crate::error::MathError;

verus! {

/// Errors of the stableswap pair kernels.
#[derive(Clone, Copy, Debug, PartialEq, Eq)]
pub enum ContractError {
    /// A failure of the numeric layer or of a solver.
    Math(MathError),
    /// Event of zero transfer: a provision with a zero deposit.
    InvalidZeroAmount,
    /// Insufficient amount of liquidity: a non-initial provision that mints
    /// no shares.
    LiquidityAmountTooSmall,
    /// The initial provision must mint more than the minimum liquidity
    /// amount.
    MinimumLiquidityAmountError,
}

} // verus!
