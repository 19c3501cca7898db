//! Constant-product pair (`x * y = k`): the swap kernel and the provide /
//! withdraw kernels.

pub mod consts;
pub mod error;
pub mod provide;
pub mod withdraw;

use vstd::prelude::*;

use crate::dec128::Dec128;
use crate::dec256::{ddiv, dmul, Dec256};
use crate::error::MathError;
use crate::u256::{full_mul_u128, lim256, limb_base, unit, U256, ATOMICS_PER_UNIT};

verus! {

/// Outcome of a constant-product swap preview.
#[derive(Clone, Copy, Debug, PartialEq, Eq)]
pub struct SimulationResponse {
    /// The amount of ask assets returned by the swap.
    pub return_amount: u128,
    /// The spread used in the swap operation.
    pub spread_amount: u128,
    /// The amount of fees charged by the transaction.
    pub commission_amount: u128,
}

/// The constant-product swap, in the operation order of [`compute_swap`]:
/// the gross output is `ask_pool - k / (offer_pool + offer_amount)` with
/// `k = offer_pool * ask_pool`, the spread is the shortfall against the
/// pool's spot rate (saturating at zero), and the commission is taken from
/// the gross output. The tuple is `(return, spread, commission)`.
pub open spec fn compute_swap_spec(
    offer_pool: int,
    ask_pool: int,
    offer_amount: int,
    commission_rate: int,
) -> Result<(int, int, int), MathError> {
    let cp = offer_pool * ask_pool;
    if ddiv(ask_pool, 1) >= lim256() {
        Err(MathError::Overflow)
    } else {
        let r1 = ddiv(ask_pool, 1);
        if offer_pool + offer_amount >= lim256() {
            Err(MathError::Overflow)
        } else if offer_pool + offer_amount == 0 {
            Err(MathError::DivideByZero)
        } else if ddiv(cp, offer_pool + offer_amount) >= lim256() {
            Err(MathError::Overflow)
        } else {
            let r2 = ddiv(cp, offer_pool + offer_amount);
            if r1 < r2 {
                Err(MathError::Overflow)
            } else {
                let ret0 = (r1 - r2) / unit();
                if offer_pool == 0 {
                    Err(MathError::DivideByZero)
                } else if ddiv(ask_pool, offer_pool) >= lim256() {
                    Err(MathError::Overflow)
                } else {
                    let ratio = ddiv(ask_pool, offer_pool);
                    if (offer_amount * ratio) / unit() >= lim256() {
                        Err(MathError::Overflow)
                    } else {
                        let prod = (offer_amount * ratio) / unit();
                        let spread = if prod >= ret0 {
                            prod - ret0
                        } else {
                            0
                        };
                        if (ret0 * commission_rate) / unit() >= lim256() {
                            Err(MathError::Overflow)
                        } else {
                            let commission = (ret0 * commission_rate) / unit();
                            if ret0 < commission {
                                Err(MathError::Overflow)
                            } else {
                                let ret = ret0 - commission;
                                if ret >= limb_base() {
                                    Err(MathError::ConversionOverflow)
                                } else if spread >= limb_base() {
                                    Err(MathError::ConversionOverflow)
                                } else if commission >= limb_base() {
                                    Err(MathError::ConversionOverflow)
                                } else {
                                    Ok((ret, spread, commission))
                                }
                            }
                        }
                    }
                }
            }
        }
    }
}

/// The swap preview over the reserve pair, with the offer and ask pools
/// picked by `ask_ind` (any non-zero index reads as the second asset).
pub open spec fn simulate_spec(
    a0: int,
    a1: int,
    offer_amount: int,
    ask_ind: int,
    commission_rate: int,
) -> Result<(int, int, int), MathError> {
    if ask_ind == 0 {
        compute_swap_spec(a1, a0, offer_amount, commission_rate)
    } else {
        compute_swap_spec(a0, a1, offer_amount, commission_rate)
    }
}

/// The constant-product swap kernel; the result is pinned to
/// [`compute_swap_spec`].
pub fn compute_swap(
    offer_pool: u128,
    ask_pool: u128,
    offer_amount: u128,
    commission_rate: Dec128,
) -> (r: Result<(u128, u128, u128), MathError>)
    ensures
        match r {
            Ok(v) => compute_swap_spec(
                offer_pool as int,
                ask_pool as int,
                offer_amount as int,
                commission_rate@,
            ) == Ok::<(int, int, int), MathError>((v.0 as int, v.1 as int, v.2 as int)),
            Err(e) => compute_swap_spec(
                offer_pool as int,
                ask_pool as int,
                offer_amount as int,
                commission_rate@,
            ) == Err::<(int, int, int), MathError>(e),
        },
{
    let unit_w = U256::from_u128(ATOMICS_PER_UNIT);
    let cp = full_mul_u128(offer_pool, ask_pool);
    let r1 = match Dec256::checked_from_ratio(&U256::from_u128(ask_pool), &U256::from_u128(1)) {
        Ok(v) => v,
        Err(e) => {
            return Err(e);
        },
    };
    let den = match U256::from_u128(offer_pool).checked_add(&U256::from_u128(offer_amount)) {
        Some(v) => v,
        None => {
            return Err(MathError::Overflow);
        },
    };
    let r2 = match Dec256::checked_from_ratio(&cp, &den) {
        Ok(v) => v,
        Err(e) => {
            return Err(e);
        },
    };
    let diff = match r1.checked_sub(&r2) {
        Some(v) => v,
        None => {
            return Err(MathError::Overflow);
        },
    };
    let ret0 = diff.to_uint256();
    let ratio = match Dec256::checked_from_ratio(
        &U256::from_u128(ask_pool),
        &U256::from_u128(offer_pool),
    ) {
        Ok(v) => v,
        Err(e) => {
            return Err(e);
        },
    };
    let prod = match U256::from_u128(offer_amount).checked_multiply_ratio(
        &ratio.atomics,
        &unit_w,
    ) {
        Ok(v) => v,
        Err(e) => {
            return Err(e);
        },
    };
    let spread = match prod.checked_sub(&ret0) {
        Some(v) => v,
        None => U256::zero(),
    };
    let commission = match ret0.checked_multiply_ratio(
        &U256::from_u128(commission_rate.atomics),
        &unit_w,
    ) {
        Ok(v) => v,
        Err(e) => {
            return Err(e);
        },
    };
    let ret = match ret0.checked_sub(&commission) {
        Some(v) => v,
        None => {
            return Err(MathError::Overflow);
        },
    };
    let ret_n = match ret.try_into_u128() {
        Some(v) => v,
        None => {
            return Err(MathError::ConversionOverflow);
        },
    };
    let spread_n = match spread.try_into_u128() {
        Some(v) => v,
        None => {
            return Err(MathError::ConversionOverflow);
        },
    };
    let commission_n = match commission.try_into_u128() {
        Some(v) => v,
        None => {
            return Err(MathError::ConversionOverflow);
        },
    };
    Ok((ret_n, spread_n, commission_n))
}

/// Preview of a constant-product swap; the result is pinned to
/// [`simulate_spec`].
pub fn simulate(
    offer_amount: u128,
    ask_ind: usize,
    asset_amounts: &[u128],
    total_fee_rate: Dec128,
) -> (r: Result<SimulationResponse, MathError>)
    requires
        asset_amounts@.len() == 2,
    ensures
        match r {
            Ok(v) => simulate_spec(
                asset_amounts@[0] as int,
                asset_amounts@[1] as int,
                offer_amount as int,
                ask_ind as int,
                total_fee_rate@,
            ) == Ok::<(int, int, int), MathError>(
                (v.return_amount as int, v.spread_amount as int, v.commission_amount as int),
            ),
            Err(e) => simulate_spec(
                asset_amounts@[0] as int,
                asset_amounts@[1] as int,
                offer_amount as int,
                ask_ind as int,
                total_fee_rate@,
            ) == Err::<(int, int, int), MathError>(e),
        },
{
    let total_offer_amount: u128;
    let total_ask_amount: u128;
    if ask_ind == 0 {
        total_offer_amount = asset_amounts[1];
        total_ask_amount = asset_amounts[0];
    } else {
        total_offer_amount = asset_amounts[0];
        total_ask_amount = asset_amounts[1];
    }
    match compute_swap(total_offer_amount, total_ask_amount, offer_amount, total_fee_rate) {
        Ok((return_amount, spread_amount, commission_amount)) => Ok(
            SimulationResponse { return_amount, spread_amount, commission_amount },
        ),
        Err(e) => Err(e),
    }
}

/// With a zero offer the constant-product swap returns zero output, zero
/// spread and zero commission on any pool with a non-empty offer side: the
/// quotient `k / offer_pool` reproduces the ask pool exactly.
pub proof fn lemma_zero_offer_swap(offer_pool: int, ask_pool: int, commission_rate: int)
    requires
        0 < offer_pool < limb_base(),
        0 <= ask_pool < limb_base(),
        0 <= commission_rate,
    ensures
        compute_swap_spec(offer_pool, ask_pool, 0, commission_rate) == Ok::<
            (int, int, int),
            MathError,
        >((0int, 0int, 0int)),
{
    let u = unit();
    vstd::arithmetic::div_mod::lemma_div_basics(ask_pool * u);
    assert(ddiv(ask_pool, 1) == ask_pool * u);
    assert(ask_pool * u < lim256()) by (nonlinear_arith)
        requires
            0 <= ask_pool < limb_base(),
            u == unit(),
            lim256() == limb_base() * limb_base(),
            0 < u < limb_base(),
    ;
    assert(offer_pool * ask_pool * u == u * (ask_pool * offer_pool)) by (nonlinear_arith);
    vstd::arithmetic::div_mod::lemma_div_multiples_vanish(ask_pool * offer_pool, offer_pool);
    assert((offer_pool * ask_pool) * u == (ask_pool * u) * offer_pool) by (nonlinear_arith);
    vstd::arithmetic::div_mod::lemma_div_multiples_vanish(ask_pool * u, offer_pool);
    assert(offer_pool * (ask_pool * u) == (ask_pool * u) * offer_pool) by (nonlinear_arith);
    assert(ddiv(offer_pool * ask_pool, offer_pool) == ask_pool * u);
    assert(ddiv(ask_pool, 1) - ddiv(offer_pool * ask_pool, offer_pool) == 0);
    assert(0int / u == 0) by {
        vstd::arithmetic::div_mod::lemma_div_basics(u);
    }
    assert(ddiv(ask_pool, offer_pool) < lim256()) by {
        assert(ask_pool * u < lim256());
        vstd::arithmetic::div_mod::lemma_div_is_ordered(ask_pool * u, ask_pool * u, offer_pool);
        vstd::arithmetic::div_mod::lemma_div_is_ordered_by_denominator(ask_pool * u, 1, offer_pool);
        vstd::arithmetic::div_mod::lemma_div_basics(ask_pool * u);
    }
    assert((0 * ddiv(ask_pool, offer_pool)) / u == 0) by {
        assert(0 * ddiv(ask_pool, offer_pool) == 0) by (nonlinear_arith);
        vstd::arithmetic::div_mod::lemma_div_basics(u);
        assert(0int / u == 0);
    }
    assert((0 * commission_rate) / u == 0) by {
        assert(0 * commission_rate == 0) by (nonlinear_arith);
        assert(0int / u == 0) by {
            vstd::arithmetic::div_mod::lemma_div_basics(u);
        }
    }
}

} // verus!
