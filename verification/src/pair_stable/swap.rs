use vstd::prelude::*;

use crate::dec128::Dec128;
use crate::dec256::{ddiv, dmul, ten_pow, Dec256};
use crate::error::MathError;
use crate::pair_concentrated::swap::{rescale, rescale_spec};
use crate::pair_stable::math::{calc_y, stable_y_spec};
use crate::pair_stable::state::{compute_current_amp, current_amp_spec};
use crate::u256::{lim256, limb_base};

verus! {

/// Outcome of a stableswap swap preview, in the ask asset's native
/// precision.
#[derive(Clone, Copy, Debug, PartialEq, Eq)]
pub struct SimulationResponse {
    /// The amount of ask assets returned by the swap.
    pub return_amount: u128,
    /// The spread used in the swap operation.
    pub spread_amount: u128,
    /// The amount of fees charged by the transaction.
    pub commission_amount: u128,
}

/// Rejections of a swap preview's inputs: an empty pool side, or a zero
/// offer. The swap preview answers these with an all-zero response instead
/// of an error.
#[derive(Clone, Copy, Debug, PartialEq, Eq)]
pub enum CheckError {
    /// One of the assets is empty.
    EmptyAsset,
    /// The swap amount is zero.
    ZeroSwapAmount,
}

/// Some pool side is empty.
pub open spec fn has_zero_amount(s: Seq<Dec256>) -> bool {
    exists|i: int| 0 <= i < s.len() && s[i]@ == 0
}

/// Checks swap parameters: every pool side must be non-empty and the offer
/// must be non-zero.
pub fn check_swap_parameters(asset_amounts: &[Dec256], swap_amount: Dec256) -> (r: Result<
    (),
    CheckError,
>)
    ensures
        has_zero_amount(asset_amounts@) ==> r == Err::<(), CheckError>(CheckError::EmptyAsset),
        !has_zero_amount(asset_amounts@) && swap_amount@ == 0 ==> r == Err::<(), CheckError>(
            CheckError::ZeroSwapAmount,
        ),
        !has_zero_amount(asset_amounts@) && swap_amount@ != 0 ==> r is Ok,
{
    let mut i: usize = 0;
    while i < asset_amounts.len()
        invariant
            i <= asset_amounts@.len(),
            forall|j: int| 0 <= j < i ==> asset_amounts@[j]@ != 0,
        decreases asset_amounts@.len() - i,
    {
        if asset_amounts[i].is_zero() {
            proof {
                assert(has_zero_amount(asset_amounts@));
            }
            return Err(CheckError::EmptyAsset);
        }
        i = i + 1;
    }
    if swap_amount.is_zero() {
        return Err(CheckError::ZeroSwapAmount);
    }
    Ok(())
}

/// The stableswap kernel on rescaled reserves, in the operation order of
/// [`compute_swap`]: read the ramped amplification, move the offer side,
/// solve for the ask-side reserve at the ask precision, and take the
/// one-to-one difference as the spread (saturating at zero). The tuple is
/// `(return_amount, spread_amount)` in the ask asset's native precision.
pub open spec fn compute_swap_spec(
    total_offer_amount: int,
    total_ask_amount: int,
    offer_amount: int,
    ask_asset_prec: nat,
    x0: int,
    x1: int,
    block_time: int,
    init_amp_time: int,
    init_amp: int,
    next_amp_time: int,
    next_amp: int,
) -> Result<(int, int), MathError> {
    match current_amp_spec(block_time, init_amp_time, init_amp, next_amp_time, next_amp) {
        Err(e) => Err(e),
        Ok(amp) => if total_offer_amount + offer_amount >= lim256() {
            Err(MathError::Overflow)
        } else {
            match stable_y_spec(x0, x1, amp, total_offer_amount + offer_amount, ask_asset_prec) {
                Err(e) => Err(e),
                Ok(y) => {
                    let ta = total_ask_amount / ten_pow((18 - ask_asset_prec) as nat);
                    if ta >= limb_base() {
                        Err(MathError::ConversionOverflow)
                    } else if ta < y {
                        Err(MathError::Overflow)
                    } else {
                        let ret = ta - y;
                        let off = offer_amount / ten_pow((18 - ask_asset_prec) as nat);
                        if off >= limb_base() {
                            Err(MathError::ConversionOverflow)
                        } else {
                            Ok(
                                (
                                    ret,
                                    if off >= ret {
                                        off - ret
                                    } else {
                                        0
                                    },
                                ),
                            )
                        }
                    }
                },
            }
        },
    }
}

/// The stableswap kernel; the result is pinned to [`compute_swap_spec`].
/// The spread reads the swap at a one-to-one reference rate: the offer
/// amount (converted at the ask precision, as the reference does) less the
/// returned amount, clamped at zero.
fn compute_swap(
    total_offer_amount: Dec256,
    total_ask_amount: Dec256,
    offer_amount: Dec256,
    ask_asset_prec: u32,
    asset_amounts: &[Dec256],
    block_time: u64,
    init_amp_time: u64,
    init_amp: u64,
    next_amp_time: u64,
    next_amp: u64,
) -> (r: Result<(u128, u128), MathError>)
    requires
        asset_amounts@.len() == 2,
        ask_asset_prec <= 18,
    ensures
        match r {
            Ok(v) => compute_swap_spec(
                total_offer_amount@,
                total_ask_amount@,
                offer_amount@,
                ask_asset_prec as nat,
                asset_amounts@[0]@,
                asset_amounts@[1]@,
                block_time as int,
                init_amp_time as int,
                init_amp as int,
                next_amp_time as int,
                next_amp as int,
            ) == Ok::<(int, int), MathError>((v.0 as int, v.1 as int)),
            Err(e) => compute_swap_spec(
                total_offer_amount@,
                total_ask_amount@,
                offer_amount@,
                ask_asset_prec as nat,
                asset_amounts@[0]@,
                asset_amounts@[1]@,
                block_time as int,
                init_amp_time as int,
                init_amp as int,
                next_amp_time as int,
                next_amp as int,
            ) == Err::<(int, int), MathError>(e),
        },
{
    let amp = match compute_current_amp(
        block_time,
        init_amp_time,
        init_amp,
        next_amp_time,
        next_amp,
    ) {
        Ok(v) => v,
        Err(e) => {
            return Err(e);
        },
    };
    let new_offer = match total_offer_amount.checked_add(&offer_amount) {
        Some(v) => v,
        None => {
            return Err(MathError::Overflow);
        },
    };
    let new_total_ask_amount = match calc_y(amp, new_offer, asset_amounts, ask_asset_prec) {
        Ok(v) => v,
        Err(e) => {
            return Err(e);
        },
    };
    let ta = match total_ask_amount.to_uint128_with_precision(ask_asset_prec) {
        Ok(v) => v,
        Err(e) => {
            return Err(e);
        },
    };
    let return_amount = match ta.checked_sub(new_total_ask_amount) {
        Some(v) => v,
        None => {
            return Err(MathError::Overflow);
        },
    };
    let offer_native = match offer_amount.to_uint128_with_precision(ask_asset_prec) {
        Ok(v) => v,
        Err(e) => {
            return Err(e);
        },
    };
    let spread_amount = if offer_native >= return_amount {
        offer_native - return_amount
    } else {
        0
    };
    Ok((return_amount, spread_amount))
}

/// The full stableswap preview, in the operation order of [`simulate`]:
/// the offer and both reserves are rescaled into internal units; a zero
/// rescaled reserve or a zero rescaled offer short-circuits to an all-zero
/// response; otherwise the kernel runs and the flat fee rate is taken from
/// the returned amount. The tuple is `(return, spread, commission)`.
pub open spec fn simulate_spec(
    a0: int,
    a1: int,
    offer_amount: int,
    offer_asset_prec: nat,
    ask_ind: int,
    ask_asset_prec: nat,
    total_fee_rate: int,
    block_time: int,
    init_amp_time: int,
    init_amp: int,
    next_amp_time: int,
    next_amp: int,
) -> Result<(int, int, int), MathError> {
    match rescale_spec(offer_amount, offer_asset_prec) {
        Err(e) => Err(e),
        Ok(o) => match rescale_spec(
            a0,
            if ask_ind == 0 {
                ask_asset_prec
            } else {
                offer_asset_prec
            },
        ) {
            Err(e) => Err(e),
            Ok(r0) => match rescale_spec(
                a1,
                if ask_ind == 1 {
                    ask_asset_prec
                } else {
                    offer_asset_prec
                },
            ) {
                Err(e) => Err(e),
                Ok(r1) => if r0 == 0 || r1 == 0 || o == 0 {
                    Ok((0, 0, 0))
                } else {
                    let total_offer = if ask_ind == 0 {
                        r1
                    } else {
                        r0
                    };
                    let total_ask = if ask_ind == 0 {
                        r0
                    } else {
                        r1
                    };
                    match compute_swap_spec(
                        total_offer,
                        total_ask,
                        o,
                        ask_asset_prec,
                        r0,
                        r1,
                        block_time,
                        init_amp_time,
                        init_amp,
                        next_amp_time,
                        next_amp,
                    ) {
                        Err(e) => Err(e),
                        Ok((ret, spread)) => if dmul(total_fee_rate, ret) >= limb_base() {
                            Err(MathError::Overflow)
                        } else {
                            let commission = dmul(total_fee_rate, ret);
                            Ok(
                                (
                                    if ret >= commission {
                                        ret - commission
                                    } else {
                                        0
                                    },
                                    spread,
                                    commission,
                                ),
                            )
                        },
                    }
                },
            },
        },
    }
}

/// A preview with a zero rescaled reserve on either side, or a zero
/// rescaled offer, answers `(0, 0, 0)` rather than erroring: there is
/// nothing to preview.
pub proof fn lemma_zero_input_short_circuit(
    a0: int,
    a1: int,
    offer_amount: int,
    offer_asset_prec: nat,
    ask_ind: int,
    ask_asset_prec: nat,
    total_fee_rate: int,
    block_time: int,
    init_amp_time: int,
    init_amp: int,
    next_amp_time: int,
    next_amp: int,
    o: int,
    r0: int,
    r1: int,
)
    requires
        rescale_spec(offer_amount, offer_asset_prec) == Ok::<int, MathError>(o),
        rescale_spec(
            a0,
            if ask_ind == 0 {
                ask_asset_prec
            } else {
                offer_asset_prec
            },
        ) == Ok::<int, MathError>(r0),
        rescale_spec(
            a1,
            if ask_ind == 1 {
                ask_asset_prec
            } else {
                offer_asset_prec
            },
        ) == Ok::<int, MathError>(r1),
        r0 == 0 || r1 == 0 || o == 0,
    ensures
        simulate_spec(
            a0,
            a1,
            offer_amount,
            offer_asset_prec,
            ask_ind,
            ask_asset_prec,
            total_fee_rate,
            block_time,
            init_amp_time,
            init_amp,
            next_amp_time,
            next_amp,
        ) == Ok::<(int, int, int), MathError>((0int, 0int, 0int)),
{
}

/// Preview of a stableswap swap: native-precision reserves and offer in,
/// native-precision return, spread and commission out. The result is
/// pinned to [`simulate_spec`]; zero inputs short-circuit to an all-zero
/// response.
pub fn simulate(
    offer_amount: Dec256,
    offer_asset_prec: u32,
    ask_ind: usize,
    ask_asset_prec: u32,
    asset_amounts: &[Dec256],
    total_fee_rate: Dec128,
    block_time: u64,
    init_amp_time: u64,
    init_amp: u64,
    next_amp_time: u64,
    next_amp: u64,
) -> (r: Result<SimulationResponse, MathError>)
    requires
        asset_amounts@.len() == 2,
        offer_asset_prec <= 18,
        ask_asset_prec <= 18,
    ensures
        match r {
            Ok(v) => simulate_spec(
                asset_amounts@[0]@,
                asset_amounts@[1]@,
                offer_amount@,
                offer_asset_prec as nat,
                ask_ind as int,
                ask_asset_prec as nat,
                total_fee_rate@,
                block_time as int,
                init_amp_time as int,
                init_amp as int,
                next_amp_time as int,
                next_amp as int,
            ) == Ok::<(int, int, int), MathError>(
                (v.return_amount as int, v.spread_amount as int, v.commission_amount as int),
            ),
            Err(e) => simulate_spec(
                asset_amounts@[0]@,
                asset_amounts@[1]@,
                offer_amount@,
                offer_asset_prec as nat,
                ask_ind as int,
                ask_asset_prec as nat,
                total_fee_rate@,
                block_time as int,
                init_amp_time as int,
                init_amp as int,
                next_amp_time as int,
                next_amp as int,
            ) == Err::<(int, int, int), MathError>(e),
        },
{
    let offer = match rescale(&offer_amount, offer_asset_prec) {
        Ok(v) => v,
        Err(e) => {
            return Err(e);
        },
    };
    let p0 = if ask_ind == 0 {
        ask_asset_prec
    } else {
        offer_asset_prec
    };
    let p1 = if ask_ind == 1 {
        ask_asset_prec
    } else {
        offer_asset_prec
    };
    let r0 = match rescale(&asset_amounts[0], p0) {
        Ok(v) => v,
        Err(e) => {
            return Err(e);
        },
    };
    let r1 = match rescale(&asset_amounts[1], p1) {
        Ok(v) => v,
        Err(e) => {
            return Err(e);
        },
    };
    let rescaled = [r0, r1];
    if check_swap_parameters(&rescaled, offer).is_err() {
        proof {
            assert(has_zero_amount(rescaled@) ==> r0@ == 0 || r1@ == 0);
            assert(r0@ == 0 ==> has_zero_amount(rescaled@));
            assert(r1@ == 0 ==> has_zero_amount(rescaled@));
        }
        return Ok(SimulationResponse { return_amount: 0, spread_amount: 0, commission_amount: 0 });
    }
    proof {
        assert(r0@ == 0 ==> has_zero_amount(rescaled@));
        assert(r1@ == 0 ==> has_zero_amount(rescaled@));
    }
    let total_offer_amount: Dec256;
    let total_ask_amount: Dec256;
    if ask_ind == 0 {
        total_offer_amount = r1;
        total_ask_amount = r0;
    } else {
        total_offer_amount = r0;
        total_ask_amount = r1;
    }
    let (return_gross, spread_amount) = match compute_swap(
        total_offer_amount,
        total_ask_amount,
        offer,
        ask_asset_prec,
        &rescaled,
        block_time,
        init_amp_time,
        init_amp,
        next_amp_time,
        next_amp,
    ) {
        Ok(v) => v,
        Err(e) => {
            return Err(e);
        },
    };
    let commission_amount = match total_fee_rate.checked_mul_uint128(return_gross) {
        Some(v) => v,
        None => {
            return Err(MathError::Overflow);
        },
    };
    let return_amount = if return_gross >= commission_amount {
        return_gross - commission_amount
    } else {
        0
    };
    Ok(SimulationResponse { return_amount, spread_amount, commission_amount })
}

} // verus!
