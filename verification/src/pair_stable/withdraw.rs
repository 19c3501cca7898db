use vstd::prelude::*;

use crate::error::MathError;
use crate::pair_xyk::withdraw::{compute_withdraw, compute_withdraw_spec};

verus! {

/// Outcome of a withdrawal preview.
#[derive(Clone, Debug, PartialEq, Eq)]
pub struct SimulationResponse {
    /// The amount of assets returned by the withdrawal.
    pub returned_amounts: Vec<u128>,
}

/// Preview of a stableswap withdrawal. Withdrawals are proportional, so
/// the stableswap pair shares the constant-product pair's kernel; the
/// refunds are pinned to [`compute_withdraw_spec`].
pub fn simulate(amount: u128, asset_amounts: &[u128], total_share: u128) -> (r: Result<
    SimulationResponse,
    MathError,
>)
    ensures
        match r {
            Ok(v) => compute_withdraw_spec(amount as int, asset_amounts@, total_share as int)
                == Ok::<Seq<u128>, MathError>(v.returned_amounts@),
            Err(e) => compute_withdraw_spec(amount as int, asset_amounts@, total_share as int)
                == Err::<Seq<u128>, MathError>(e),
        },
{
    match compute_withdraw(amount, asset_amounts, total_share) {
        Ok(returned_amounts) => Ok(SimulationResponse { returned_amounts }),
        Err(e) => Err(e),
    }
}

} // verus!
