use vstd::prelude::*;

use crate::dec256::lemma_floor_sqrt_bounds;
use crate::error::MathError;
use crate::pair_xyk::consts::MINIMUM_LIQUIDITY_AMOUNT;
use crate::pair_xyk::error::ContractError;
use crate::u256::{floor_sqrt, full_mul_u128, limb_base, U256};

verus! {

/// Outcome of a provision preview.
#[derive(Clone, Copy, Debug, PartialEq, Eq)]
pub struct SimulationResponse {
    /// The amount of LP shares returned by the provision.
    pub share_amount: u128,
}

/// Minted LP shares for a deposit pair, in the operation order of
/// [`compute_provide`]: a zero deposit is rejected; the initial provision
/// mints `floor(sqrt(d0 * d1))` less the burnt minimum (and must mint a
/// positive amount); a later provision mints the deposit's proportional
/// share of the supply, the smaller of the two sides.
pub open spec fn compute_provide_spec(d0: int, d1: int, a0: int, a1: int, total_share: int) -> Result<
    int,
    ContractError,
> {
    if d0 == 0 || d1 == 0 {
        Err(ContractError::InvalidZeroAmount)
    } else if total_share == 0 {
        let s = floor_sqrt((d0 * d1) as nat);
        if s <= MINIMUM_LIQUIDITY_AMOUNT as int {
            Err(ContractError::MinimumLiquidityAmountError)
        } else {
            Ok(s - MINIMUM_LIQUIDITY_AMOUNT)
        }
    } else {
        if a0 == 0 {
            Err(ContractError::Math(MathError::DivideByZero))
        } else if (d0 * total_share) / a0 >= limb_base() {
            Err(ContractError::Math(MathError::Overflow))
        } else {
            let q0 = (d0 * total_share) / a0;
            if a1 == 0 {
                Err(ContractError::Math(MathError::DivideByZero))
            } else if (d1 * total_share) / a1 >= limb_base() {
                Err(ContractError::Math(MathError::Overflow))
            } else {
                let q1 = (d1 * total_share) / a1;
                Ok(
                    if q0 <= q1 {
                        q0
                    } else {
                        q1
                    },
                )
            }
        }
    }
}

/// One proportional share `floor(d * total_share / a)`, narrowed to 128
/// bits.
fn share_ratio(d: u128, total_share: u128, a: u128) -> (r: Result<u128, MathError>)
    ensures
        match r {
            Ok(v) => a != 0 && (d * total_share) / (a as int) < limb_base() && v == (d
                * total_share) / (a as int),
            Err(e) => if a == 0 {
                e == MathError::DivideByZero
            } else {
                (d * total_share) / (a as int) >= limb_base() && e == MathError::Overflow
            },
        },
{
    if a == 0 {
        return Err(MathError::DivideByZero);
    }
    let wide = full_mul_u128(d, total_share);
    let q = wide.checked_div(&U256::from_u128(a)).unwrap();
    match q.try_into_u128() {
        Some(v) => Ok(v),
        None => Err(MathError::Overflow),
    }
}

/// The provision kernel; the result is pinned to [`compute_provide_spec`].
pub fn compute_provide(deposits: &[u128], asset_amounts: &[u128], total_share: u128) -> (r: Result<
    u128,
    ContractError,
>)
    requires
        deposits@.len() == 2,
        asset_amounts@.len() == 2,
    ensures
        match r {
            Ok(v) => compute_provide_spec(
                deposits@[0] as int,
                deposits@[1] as int,
                asset_amounts@[0] as int,
                asset_amounts@[1] as int,
                total_share as int,
            ) == Ok::<int, ContractError>(v as int),
            Err(e) => compute_provide_spec(
                deposits@[0] as int,
                deposits@[1] as int,
                asset_amounts@[0] as int,
                asset_amounts@[1] as int,
                total_share as int,
            ) == Err::<int, ContractError>(e),
        },
{
    if deposits[0] == 0 || deposits[1] == 0 {
        return Err(ContractError::InvalidZeroAmount);
    }
    if total_share == 0 {
        let wide = full_mul_u128(deposits[0], deposits[1]);
        let root = wide.isqrt();
        proof {
            lemma_floor_sqrt_bounds(wide@ as nat);
            assert(root@ < limb_base()) by (nonlinear_arith)
                requires
                    root@ * root@ <= wide@,
                    wide@ < crate::u256::lim256(),
                    crate::u256::lim256() == limb_base() * limb_base(),
                    root@ >= 0,
            ;
        }
        let s = root.try_into_u128().unwrap();
        match s.checked_sub(MINIMUM_LIQUIDITY_AMOUNT) {
            None => Err(ContractError::MinimumLiquidityAmountError),
            Some(share) => {
                if share == 0 {
                    Err(ContractError::MinimumLiquidityAmountError)
                } else {
                    Ok(share)
                }
            },
        }
    } else {
        let q0 = match share_ratio(deposits[0], total_share, asset_amounts[0]) {
            Ok(v) => v,
            Err(e) => {
                return Err(ContractError::Math(e));
            },
        };
        let q1 = match share_ratio(deposits[1], total_share, asset_amounts[1]) {
            Ok(v) => v,
            Err(e) => {
                return Err(ContractError::Math(e));
            },
        };
        if q0 <= q1 {
            Ok(q0)
        } else {
            Ok(q1)
        }
    }
}

/// Preview of a constant-product provision; the minted shares are pinned
/// to [`compute_provide_spec`]. A provision with a zero deposit fails with
/// [`ContractError::InvalidZeroAmount`], and only then.
pub fn simulate(deposits: &[u128], asset_amounts: &[u128], total_share: u128) -> (r: Result<
    SimulationResponse,
    ContractError,
>)
    requires
        deposits@.len() == 2,
        asset_amounts@.len() == 2,
    ensures
        match r {
            Ok(v) => compute_provide_spec(
                deposits@[0] as int,
                deposits@[1] as int,
                asset_amounts@[0] as int,
                asset_amounts@[1] as int,
                total_share as int,
            ) == Ok::<int, ContractError>(v.share_amount as int),
            Err(e) => compute_provide_spec(
                deposits@[0] as int,
                deposits@[1] as int,
                asset_amounts@[0] as int,
                asset_amounts@[1] as int,
                total_share as int,
            ) == Err::<int, ContractError>(e),
        },
        (deposits@[0] == 0 || deposits@[1] == 0) <==> r == Err::<SimulationResponse, ContractError>(
            ContractError::InvalidZeroAmount,
        ),
{
    match compute_provide(deposits, asset_amounts, total_share) {
        Ok(share_amount) => Ok(SimulationResponse { share_amount }),
        Err(e) => Err(e),
    }
}

} // verus!
