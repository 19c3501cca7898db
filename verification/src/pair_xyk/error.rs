use vstd::prelude::*;

use crate::error::MathError;

verus! {

/// Errors of the constant-product pair kernels.
#[derive(Clone, Copy, Debug, PartialEq, Eq)]
pub enum ContractError {
    /// A failure of the numeric layer.
    Math(MathError),
    /// Event of zero transfer: a provision with a zero deposit.
    InvalidZeroAmount,
    /// The initial provision must mint more than the minimum liquidity
    /// amount.
    MinimumLiquidityAmountError,
}

} // verus!
