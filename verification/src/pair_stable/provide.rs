use vstd::prelude::*;

use crate::dec256::{ten_pow, Dec256};
use crate::error::MathError;
use crate::pair_concentrated::swap::{rescale, rescale_spec};
use crate::pair_stable::consts::MINIMUM_LIQUIDITY_AMOUNT;
use crate::pair_stable::error::ContractError;
use crate::pair_stable::math::{compute_d, compute_d_spec};
use crate::pair_stable::state::{compute_current_amp, current_amp_spec, greatest_precision};
use crate::u256::{lim256, limb_base, U256};

verus! {

/// Outcome of a provision preview.
#[derive(Clone, Copy, Debug, PartialEq, Eq)]
pub struct SimulationResponse {
    /// The amount of LP shares returned by the provision.
    pub share_amount: u128,
}

/// The larger of the two native precisions.
pub open spec fn gp_of(p0: nat, p1: nat) -> nat {
    if p0 >= p1 {
        p0
    } else {
        p1
    }
}

/// Minted LP shares for a stableswap deposit, in the operation order of
/// [`compute_provide`]: a zero deposit is rejected; the invariant after the
/// deposit is computed under the current amplification; the initial
/// provision mints that invariant at the pair's greatest precision, less
/// the burnt minimum (and must mint a positive amount); a later provision
/// mints the supply's share of the invariant's growth (and must mint a
/// positive amount).
pub open spec fn compute_provide_spec(
    d0: int,
    d1: int,
    a0: int,
    a1: int,
    gp: nat,
    total_share: int,
    block_time: int,
    init_amp_time: int,
    init_amp: int,
    next_amp_time: int,
    next_amp: int,
) -> Result<int, ContractError> {
    if d0 == 0 || d1 == 0 {
        Err(ContractError::InvalidZeroAmount)
    } else {
        match current_amp_spec(block_time, init_amp_time, init_amp, next_amp_time, next_amp) {
            Err(e) => Err(ContractError::Math(e)),
            Ok(amp) => if d0 + a0 >= lim256() {
                Err(ContractError::Math(MathError::Overflow))
            } else if d1 + a1 >= lim256() {
                Err(ContractError::Math(MathError::Overflow))
            } else {
                match compute_d_spec(d0 + a0, d1 + a1, amp) {
                    Err(e) => Err(ContractError::Math(e)),
                    Ok(deposit_d) => if total_share == 0 {
                        let w = deposit_d / ten_pow((18 - gp) as nat);
                        if w >= limb_base() {
                            Err(ContractError::Math(MathError::ConversionOverflow))
                        } else if w <= MINIMUM_LIQUIDITY_AMOUNT as int {
                            Err(ContractError::MinimumLiquidityAmountError)
                        } else {
                            Ok(w - MINIMUM_LIQUIDITY_AMOUNT)
                        }
                    } else {
                        match compute_d_spec(a0, a1, amp) {
                            Err(e) => Err(ContractError::Math(e)),
                            Ok(init_d) => if total_share * ten_pow((18 - gp) as nat) >= lim256() {
                                Err(ContractError::Math(MathError::Overflow))
                            } else {
                                let ts = total_share * ten_pow((18 - gp) as nat);
                                let delta = if deposit_d >= init_d {
                                    deposit_d - init_d
                                } else {
                                    0
                                };
                                if init_d == 0 {
                                    Err(ContractError::Math(MathError::DivideByZero))
                                } else if (ts * delta) / init_d >= lim256() {
                                    Err(ContractError::Math(MathError::Overflow))
                                } else {
                                    let share_at = (ts * delta) / init_d;
                                    let w = share_at / ten_pow((18 - gp) as nat);
                                    if w >= limb_base() {
                                        Err(ContractError::Math(MathError::ConversionOverflow))
                                    } else if w == 0 {
                                        Err(ContractError::LiquidityAmountTooSmall)
                                    } else {
                                        Ok(w)
                                    }
                                }
                            },
                        }
                    },
                }
            },
        }
    }
}

/// The provision kernel on rescaled amounts; the result is pinned to
/// [`compute_provide_spec`].
pub fn compute_provide(
    deposits: &[Dec256],
    asset_amounts: &[Dec256],
    asset_precisions: &[u8],
    total_share: u128,
    block_time: u64,
    init_amp_time: u64,
    init_amp: u64,
    next_amp_time: u64,
    next_amp: u64,
) -> (r: Result<u128, ContractError>)
    requires
        deposits@.len() == 2,
        asset_amounts@.len() == 2,
        asset_precisions@.len() == 2,
        asset_precisions@[0] <= 18,
        asset_precisions@[1] <= 18,
    ensures
        match r {
            Ok(v) => compute_provide_spec(
                deposits@[0]@,
                deposits@[1]@,
                asset_amounts@[0]@,
                asset_amounts@[1]@,
                gp_of(asset_precisions@[0] as nat, asset_precisions@[1] as nat),
                total_share as int,
                block_time as int,
                init_amp_time as int,
                init_amp as int,
                next_amp_time as int,
                next_amp as int,
            ) == Ok::<int, ContractError>(v as int),
            Err(e) => compute_provide_spec(
                deposits@[0]@,
                deposits@[1]@,
                asset_amounts@[0]@,
                asset_amounts@[1]@,
                gp_of(asset_precisions@[0] as nat, asset_precisions@[1] as nat),
                total_share as int,
                block_time as int,
                init_amp_time as int,
                init_amp as int,
                next_amp_time as int,
                next_amp as int,
            ) == Err::<int, ContractError>(e),
        },
{
    if deposits[0].is_zero() || deposits[1].is_zero() {
        return Err(ContractError::InvalidZeroAmount);
    }
    let amp = match compute_current_amp(
        block_time,
        init_amp_time,
        init_amp,
        next_amp_time,
        next_amp,
    ) {
        Ok(v) => v,
        Err(e) => {
            return Err(ContractError::Math(e));
        },
    };
    let b0 = match deposits[0].checked_add(&asset_amounts[0]) {
        Some(v) => v,
        None => {
            return Err(ContractError::Math(MathError::Overflow));
        },
    };
    let b1 = match deposits[1].checked_add(&asset_amounts[1]) {
        Some(v) => v,
        None => {
            return Err(ContractError::Math(MathError::Overflow));
        },
    };
    let new_balances = [b0, b1];
    let deposit_d = match compute_d(amp, &new_balances) {
        Ok(v) => v,
        Err(e) => {
            return Err(ContractError::Math(e));
        },
    };
    let gp = greatest_precision(asset_precisions) as u32;
    proof {
        assert(gp as nat == gp_of(asset_precisions@[0] as nat, asset_precisions@[1] as nat));
    }
    if total_share == 0 {
        let w = match deposit_d.to_uint128_with_precision(gp) {
            Ok(v) => v,
            Err(e) => {
                return Err(ContractError::Math(e));
            },
        };
        match w.checked_sub(MINIMUM_LIQUIDITY_AMOUNT) {
            None => Err(ContractError::MinimumLiquidityAmountError),
            Some(share) => {
                if share == 0 {
                    Err(ContractError::MinimumLiquidityAmountError)
                } else {
                    Ok(share)
                }
            },
        }
    } else {
        let init_d = match compute_d(amp, asset_amounts) {
            Ok(v) => v,
            Err(e) => {
                return Err(ContractError::Math(e));
            },
        };
        let ts = match Dec256::from_atomics(&U256::from_u128(total_share), gp) {
            Ok(v) => v,
            Err(e) => {
                return Err(ContractError::Math(e));
            },
        };
        let delta = deposit_d.saturating_sub(&init_d);
        let share_dec = match ts.checked_multiply_ratio(&delta, &init_d) {
            Ok(v) => v,
            Err(e) => {
                return Err(ContractError::Math(e));
            },
        };
        let w = match share_dec.to_uint128_with_precision(gp) {
            Ok(v) => v,
            Err(e) => {
                return Err(ContractError::Math(e));
            },
        };
        if w == 0 {
            Err(ContractError::LiquidityAmountTooSmall)
        } else {
            Ok(w)
        }
    }
}

/// The full provision preview: deposits and reserves are rescaled from
/// their native precisions into internal units, then the kernel runs.
pub open spec fn simulate_spec(
    d0: int,
    d1: int,
    a0: int,
    a1: int,
    p0: nat,
    p1: nat,
    total_share: int,
    block_time: int,
    init_amp_time: int,
    init_amp: int,
    next_amp_time: int,
    next_amp: int,
) -> Result<int, ContractError> {
    match rescale_spec(d0, p0) {
        Err(e) => Err(ContractError::Math(e)),
        Ok(d0r) => match rescale_spec(d1, p1) {
            Err(e) => Err(ContractError::Math(e)),
            Ok(d1r) => match rescale_spec(a0, p0) {
                Err(e) => Err(ContractError::Math(e)),
                Ok(a0r) => match rescale_spec(a1, p1) {
                    Err(e) => Err(ContractError::Math(e)),
                    Ok(a1r) => compute_provide_spec(
                        d0r,
                        d1r,
                        a0r,
                        a1r,
                        gp_of(p0, p1),
                        total_share,
                        block_time,
                        init_amp_time,
                        init_amp,
                        next_amp_time,
                        next_amp,
                    ),
                },
            },
        },
    }
}

/// Preview of a stableswap provision; the minted shares are pinned to
/// [`simulate_spec`]. A provision with a zero rescaled deposit fails with
/// [`ContractError::InvalidZeroAmount`].
pub fn simulate(
    deposits: &[Dec256],
    asset_amounts: &[Dec256],
    asset_precisions: &[u8],
    total_share: u128,
    block_time: u64,
    init_amp_time: u64,
    init_amp: u64,
    next_amp_time: u64,
    next_amp: u64,
) -> (r: Result<SimulationResponse, ContractError>)
    requires
        deposits@.len() == 2,
        asset_amounts@.len() == 2,
        asset_precisions@.len() == 2,
        asset_precisions@[0] <= 18,
        asset_precisions@[1] <= 18,
    ensures
        match r {
            Ok(v) => simulate_spec(
                deposits@[0]@,
                deposits@[1]@,
                asset_amounts@[0]@,
                asset_amounts@[1]@,
                asset_precisions@[0] as nat,
                asset_precisions@[1] as nat,
                total_share as int,
                block_time as int,
                init_amp_time as int,
                init_amp as int,
                next_amp_time as int,
                next_amp as int,
            ) == Ok::<int, ContractError>(v.share_amount as int),
            Err(e) => simulate_spec(
                deposits@[0]@,
                deposits@[1]@,
                asset_amounts@[0]@,
                asset_amounts@[1]@,
                asset_precisions@[0] as nat,
                asset_precisions@[1] as nat,
                total_share as int,
                block_time as int,
                init_amp_time as int,
                init_amp as int,
                next_amp_time as int,
                next_amp as int,
            ) == Err::<int, ContractError>(e),
        },
{
    let p0 = asset_precisions[0] as u32;
    let p1 = asset_precisions[1] as u32;
    let d0 = match rescale(&deposits[0], p0) {
        Ok(v) => v,
        Err(e) => {
            return Err(ContractError::Math(e));
        },
    };
    let d1 = match rescale(&deposits[1], p1) {
        Ok(v) => v,
        Err(e) => {
            return Err(ContractError::Math(e));
        },
    };
    let a0 = match rescale(&asset_amounts[0], p0) {
        Ok(v) => v,
        Err(e) => {
            return Err(ContractError::Math(e));
        },
    };
    let a1 = match rescale(&asset_amounts[1], p1) {
        Ok(v) => v,
        Err(e) => {
            return Err(ContractError::Math(e));
        },
    };
    let rescaled_deposits = [d0, d1];
    let rescaled_amounts = [a0, a1];
    match compute_provide(
        &rescaled_deposits,
        &rescaled_amounts,
        asset_precisions,
        total_share,
        block_time,
        init_amp_time,
        init_amp,
        next_amp_time,
        next_amp,
    ) {
        Ok(share_amount) => Ok(SimulationResponse { share_amount }),
        Err(e) => Err(e),
    }
}

} // verus!
