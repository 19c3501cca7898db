use vstd::prelude::*;

use crate::dec128::Dec128;
use crate::dec256::{ddiv, dmul, ten_pow, Dec256};
use crate::error::MathError;
use crate::pair_concentrated::math::{calc_d, calc_y};
use crate::pair_concentrated::math_decimal::{newton_d_spec, newton_y_spec};
use crate::pair_concentrated::state::{amp_gamma_spec, fee, fee_spec, get_amp_gamma};
use crate::u256::{lim256, limb_base, unit};

verus! {

/// Outcome of a concentrated swap preview, in the ask asset's native
/// precision.
#[derive(Clone, Copy, Debug, PartialEq, Eq)]
pub struct SwapSimulationResponse {
    /// The amount of ask assets returned by the swap.
    pub return_amount: u128,
    /// The spread used in the swap operation.
    pub spread_amount: u128,
    /// The amount of fees charged by the transaction.
    pub commission_amount: u128,
}

/// Internal swap outcome, still in 18-digit internal units.
#[derive(Clone, Copy, Debug, PartialEq, Eq)]
pub struct SwapResult {
    pub new_y: Dec256,
    pub offer_amount: Dec256,
    pub dy: Dec256,
    pub spread_fee: Dec256,
    pub maker_fee: Dec256,
    pub total_fee: Dec256,
}

/// The swap kernel on internal reserves, in the operation order of
/// [`compute_swap`]: rotate the second reserve by the price scale, read the
/// ramped parameters, solve for `D`, add the offer on the offer side, solve
/// for the new ask-side reserve, derive the gross output `dy`, the spread
/// against the oracle price, the fee on the post-trade reserves, and the
/// maker share. The tuple is `(new_y, dy, spread_fee, maker_fee,
/// total_fee)`.
pub open spec fn compute_swap_spec(
    x0: int,
    x1: int,
    offer_amount: int,
    ask_ind: int,
    maker_fee_share: int,
    oracle_price: int,
    price_scale: int,
    fee_gamma: int,
    mid_fee: int,
    out_fee: int,
    block_time: int,
    initial_time: int,
    initial_amp: int,
    initial_gamma: int,
    future_time: int,
    future_amp: int,
    future_gamma: int,
) -> Result<(int, int, int, int, int), MathError> {
    if dmul(x1, price_scale) >= lim256() {
        Err(MathError::Overflow)
    } else {
        let ix1 = dmul(x1, price_scale);
        match amp_gamma_spec(
            block_time,
            initial_time,
            initial_amp,
            initial_gamma,
            future_time,
            future_amp,
            future_gamma,
        ) {
            Err(e) => Err(e),
            Ok((amp, gamma)) => match newton_d_spec(x0, ix1, amp, gamma) {
                Err(e) => Err(e),
                Ok(d) => {
                    let offer_scaled = if ask_ind == 0 {
                        dmul(offer_amount, price_scale)
                    } else {
                        offer_amount
                    };
                    if ask_ind == 0 && dmul(offer_amount, price_scale) >= lim256() {
                        Err(MathError::Overflow)
                    } else if (if ask_ind == 0 {
                        ix1
                    } else {
                        x0
                    }) + offer_scaled >= lim256() {
                        Err(MathError::Overflow)
                    } else {
                        let jx0 = if ask_ind == 0 {
                            x0
                        } else {
                            x0 + offer_amount
                        };
                        let jx1 = if ask_ind == 0 {
                            ix1 + offer_scaled
                        } else {
                            ix1
                        };
                        match newton_y_spec(jx0, jx1, amp, gamma, d, ask_ind) {
                            Err(e) => Err(e),
                            Ok(new_y) => {
                                let pre = if ask_ind == 0 {
                                    jx0
                                } else {
                                    jx1
                                };
                                if pre < new_y {
                                    Err(MathError::Overflow)
                                } else {
                                    let dy0 = pre - new_y;
                                    let px0 = if ask_ind == 0 {
                                        new_y
                                    } else {
                                        jx0
                                    };
                                    let px1 = if ask_ind == 0 {
                                        jx1
                                    } else {
                                        new_y
                                    };
                                    compute_swap_spec_tail(
                                        dy0,
                                        px0,
                                        px1,
                                        offer_amount,
                                        ask_ind,
                                        maker_fee_share,
                                        oracle_price,
                                        price_scale,
                                        fee_gamma,
                                        mid_fee,
                                        out_fee,
                                        new_y,
                                    )
                                }
                            },
                        }
                    }
                },
            },
        }
    }
}

/// The tail of the swap kernel, from the gross output `dy0` on: leave the
/// rotated frame on the second axis, take the spread against the oracle
/// price with saturating subtraction, sample the fee on the post-trade
/// reserves, and split it.
pub open spec fn compute_swap_spec_tail(
    dy0: int,
    px0: int,
    px1: int,
    offer_amount: int,
    ask_ind: int,
    maker_fee_share: int,
    oracle_price: int,
    price_scale: int,
    fee_gamma: int,
    mid_fee: int,
    out_fee: int,
    new_y: int,
) -> Result<(int, int, int, int, int), MathError> {
    if ask_ind == 1 {
        if price_scale == 0 {
            Err(MathError::DivideByZero)
        } else if ddiv(dy0, price_scale) >= lim256() {
            Err(MathError::Overflow)
        } else {
            let dy1 = ddiv(dy0, price_scale);
            if oracle_price == 0 {
                Err(MathError::DivideByZero)
            } else if ddiv(offer_amount, oracle_price) >= lim256() {
                Err(MathError::Overflow)
            } else {
                let quote = ddiv(offer_amount, oracle_price);
                let spread = if quote >= dy1 {
                    quote - dy1
                } else {
                    0
                };
                compute_swap_spec_fee(
                    dy1,
                    spread,
                    px0,
                    px1,
                    maker_fee_share,
                    fee_gamma,
                    mid_fee,
                    out_fee,
                    new_y,
                )
            }
        }
    } else {
        if oracle_price == 0 {
            Err(MathError::DivideByZero)
        } else if ddiv(dy0, oracle_price) >= lim256() {
            Err(MathError::Overflow)
        } else {
            let quote = ddiv(dy0, oracle_price);
            let spread = if offer_amount >= quote {
                offer_amount - quote
            } else {
                0
            };
            compute_swap_spec_fee(
                dy0,
                spread,
                px0,
                px1,
                maker_fee_share,
                fee_gamma,
                mid_fee,
                out_fee,
                new_y,
            )
        }
    }
}

/// The fee split at the end of the swap kernel.
pub open spec fn compute_swap_spec_fee(
    dy1: int,
    spread: int,
    px0: int,
    px1: int,
    maker_fee_share: int,
    fee_gamma: int,
    mid_fee: int,
    out_fee: int,
    new_y: int,
) -> Result<(int, int, int, int, int), MathError> {
    match fee_spec(px0, px1, fee_gamma, mid_fee, out_fee) {
        Err(e) => Err(e),
        Ok(rate) => if dmul(rate, dy1) >= lim256() {
            Err(MathError::Overflow)
        } else {
            let total = dmul(rate, dy1);
            if dy1 < total {
                Err(MathError::Overflow)
            } else if dmul(total, maker_fee_share) >= lim256() {
                Err(MathError::Overflow)
            } else {
                Ok((new_y, dy1 - total, spread, dmul(total, maker_fee_share), total))
            }
        },
    }
}

/// The swap kernel on internal 18-digit reserves; the result is pinned to
/// [`compute_swap_spec`].
#[verifier::rlimit(100)]
pub fn compute_swap(
    xs: &[Dec256],
    offer_amount: Dec256,
    ask_ind: usize,
    maker_fee_share: Dec256,
    oracle_price: Dec256,
    price_scale: Dec256,
    fee_gamma: Dec256,
    mid_fee: Dec256,
    out_fee: Dec256,
    block_time: u64,
    initial_time: u64,
    initial_amp: Dec128,
    initial_gamma: Dec128,
    future_time: u64,
    future_amp: Dec128,
    future_gamma: Dec128,
) -> (r: Result<SwapResult, MathError>)
    requires
        xs@.len() == 2,
        ask_ind < 2,
        initial_time <= block_time,
    ensures
        match r {
            Ok(v) => compute_swap_spec(
                xs@[0]@,
                xs@[1]@,
                offer_amount@,
                ask_ind as int,
                maker_fee_share@,
                oracle_price@,
                price_scale@,
                fee_gamma@,
                mid_fee@,
                out_fee@,
                block_time as int,
                initial_time as int,
                initial_amp@,
                initial_gamma@,
                future_time as int,
                future_amp@,
                future_gamma@,
            ) == Ok::<(int, int, int, int, int), MathError>(
                (v.new_y@, v.dy@, v.spread_fee@, v.maker_fee@, v.total_fee@),
            ) && v.offer_amount@ == offer_amount@,
            Err(e) => compute_swap_spec(
                xs@[0]@,
                xs@[1]@,
                offer_amount@,
                ask_ind as int,
                maker_fee_share@,
                oracle_price@,
                price_scale@,
                fee_gamma@,
                mid_fee@,
                out_fee@,
                block_time as int,
                initial_time as int,
                initial_amp@,
                initial_gamma@,
                future_time as int,
                future_amp@,
                future_gamma@,
            ) == Err::<(int, int, int, int, int), MathError>(e),
        },
{
    let ix0 = xs[0];
    let ix1 = match xs[1].checked_mul(&price_scale) {
        Some(v) => v,
        None => {
            return Err(MathError::Overflow);
        },
    };
    let amp_gamma = match get_amp_gamma(
        block_time,
        initial_time,
        initial_amp,
        initial_gamma,
        future_time,
        future_amp,
        future_gamma,
    ) {
        Ok(v) => v,
        Err(e) => {
            return Err(e);
        },
    };
    let ixs = [ix0, ix1];
    let d = match calc_d(&ixs, &amp_gamma) {
        Ok(v) => v,
        Err(e) => {
            return Err(e);
        },
    };
    let jx0: Dec256;
    let jx1: Dec256;
    if ask_ind == 0 {
        let scaled = match offer_amount.checked_mul(&price_scale) {
            Some(v) => v,
            None => {
                return Err(MathError::Overflow);
            },
        };
        jx0 = ix0;
        jx1 = match ix1.checked_add(&scaled) {
            Some(v) => v,
            None => {
                return Err(MathError::Overflow);
            },
        };
    } else {
        jx0 = match ix0.checked_add(&offer_amount) {
            Some(v) => v,
            None => {
                return Err(MathError::Overflow);
            },
        };
        jx1 = ix1;
    }
    let jxs = [jx0, jx1];
    let new_y = match calc_y(&jxs, d, &amp_gamma, ask_ind) {
        Ok(v) => v,
        Err(e) => {
            return Err(e);
        },
    };
    let pre = if ask_ind == 0 {
        jx0
    } else {
        jx1
    };
    let dy0 = match pre.checked_sub(&new_y) {
        Some(v) => v,
        None => {
            return Err(MathError::Overflow);
        },
    };
    let px0 = if ask_ind == 0 {
        new_y
    } else {
        jx0
    };
    let px1 = if ask_ind == 0 {
        jx1
    } else {
        new_y
    };
    let dy1: Dec256;
    let spread_fee: Dec256;
    if ask_ind == 1 {
        dy1 = match dy0.checked_div(&price_scale) {
            Ok(v) => v,
            Err(e) => {
                return Err(e);
            },
        };
        let quote = match offer_amount.checked_div(&oracle_price) {
            Ok(v) => v,
            Err(e) => {
                return Err(e);
            },
        };
        spread_fee = quote.saturating_sub(&dy1);
    } else {
        dy1 = dy0;
        let quote = match dy0.checked_div(&oracle_price) {
            Ok(v) => v,
            Err(e) => {
                return Err(e);
            },
        };
        spread_fee = offer_amount.saturating_sub(&quote);
    }
    let pxs = [px0, px1];
    let fee_rate = match fee(&pxs, &fee_gamma, &mid_fee, &out_fee) {
        Ok(v) => v,
        Err(e) => {
            return Err(e);
        },
    };
    let total_fee = match fee_rate.checked_mul(&dy1) {
        Some(v) => v,
        None => {
            return Err(MathError::Overflow);
        },
    };
    let dy = match dy1.checked_sub(&total_fee) {
        Some(v) => v,
        None => {
            return Err(MathError::Overflow);
        },
    };
    let maker_fee = match total_fee.checked_mul(&maker_fee_share) {
        Some(v) => v,
        None => {
            return Err(MathError::Overflow);
        },
    };
    Ok(SwapResult { new_y, offer_amount, dy, spread_fee, maker_fee, total_fee })
}

/// Rescaling of a caller-precision amount into internal 18-digit units:
/// the whole part of the raw decimal, re-read as a count of atomic units at
/// `precision` fractional digits.
pub open spec fn rescale_spec(v: int, precision: nat) -> Result<int, MathError> {
    let whole = v / unit();
    if whole * ten_pow((18 - precision) as nat) >= lim256() {
        Err(MathError::Overflow)
    } else {
        Ok(whole * ten_pow((18 - precision) as nat))
    }
}

/// Conversion of an internal amount to a native integer amount at
/// `precision` fractional digits: `floor(v * 10^precision)`, narrowed to
/// 128 bits.
pub open spec fn to_native_spec(v: int, precision: nat) -> Result<int, MathError> {
    let scaled = (v * ten_pow(precision)) / unit();
    if scaled >= lim256() {
        Err(MathError::Overflow)
    } else if scaled >= limb_base() {
        Err(MathError::ConversionOverflow)
    } else {
        Ok(scaled)
    }
}

/// The full swap preview, in the operation order of [`simulate`]: the offer
/// amount and both reserves are rescaled from their native precisions into
/// internal units, the kernel runs, and the gross output, spread and fee
/// are rescaled to the ask asset's precision.
pub open spec fn simulate_spec(
    x0: int,
    x1: int,
    offer_amount: int,
    offer_asset_prec: nat,
    ask_ind: int,
    ask_asset_prec: nat,
    maker_fee_share: int,
    oracle_price: int,
    price_scale: int,
    fee_gamma: int,
    mid_fee: int,
    out_fee: int,
    block_time: int,
    initial_time: int,
    initial_amp: int,
    initial_gamma: int,
    future_time: int,
    future_amp: int,
    future_gamma: int,
) -> Result<(int, int, int), MathError> {
    match rescale_spec(offer_amount, offer_asset_prec) {
        Err(e) => Err(e),
        Ok(o) => match rescale_spec(
            x0,
            if ask_ind == 0 {
                ask_asset_prec
            } else {
                offer_asset_prec
            },
        ) {
            Err(e) => Err(e),
            Ok(r0) => match rescale_spec(
                x1,
                if ask_ind == 1 {
                    ask_asset_prec
                } else {
                    offer_asset_prec
                },
            ) {
                Err(e) => Err(e),
                Ok(r1) => match compute_swap_spec(
                    r0,
                    r1,
                    o,
                    ask_ind,
                    maker_fee_share,
                    oracle_price,
                    price_scale,
                    fee_gamma,
                    mid_fee,
                    out_fee,
                    block_time,
                    initial_time,
                    initial_amp,
                    initial_gamma,
                    future_time,
                    future_amp,
                    future_gamma,
                ) {
                    Err(e) => Err(e),
                    Ok((new_y, dy, spread, maker, total)) => match to_native_spec(
                        dy,
                        ask_asset_prec,
                    ) {
                        Err(e) => Err(e),
                        Ok(ret) => match to_native_spec(spread, ask_asset_prec) {
                            Err(e) => Err(e),
                            Ok(spr) => match to_native_spec(total, ask_asset_prec) {
                                Err(e) => Err(e),
                                Ok(com) => Ok((ret, spr, com)),
                            },
                        },
                    },
                },
            },
        },
    }
}

/// Rescales one raw amount into internal units; see [`rescale_spec`].
pub fn rescale(v: &Dec256, precision: u32) -> (r: Result<Dec256, MathError>)
    requires
        precision <= 18,
    ensures
        match r {
            Ok(w) => rescale_spec(v@, precision as nat) == Ok::<int, MathError>(w@),
            Err(e) => rescale_spec(v@, precision as nat) == Err::<int, MathError>(e),
        },
{
    let whole = v.to_uint256();
    Dec256::from_atomics(&whole, precision)
}

/// Preview of a concentrated-pair swap: native-precision reserves and offer
/// in, native-precision return, spread and commission out. The result is
/// pinned to [`simulate_spec`].
pub fn simulate(
    offer_amount: Dec256,
    offer_asset_prec: u32,
    ask_ind: usize,
    ask_asset_prec: u32,
    asset_amounts: &[Dec256],
    maker_fee_share: Dec256,
    oracle_price: Dec256,
    price_scale: Dec256,
    fee_gamma: Dec256,
    mid_fee: Dec256,
    out_fee: Dec256,
    block_time: u64,
    initial_time: u64,
    initial_amp: Dec128,
    initial_gamma: Dec128,
    future_time: u64,
    future_amp: Dec128,
    future_gamma: Dec128,
) -> (r: Result<SwapSimulationResponse, MathError>)
    requires
        asset_amounts@.len() == 2,
        ask_ind < 2,
        offer_asset_prec <= 18,
        ask_asset_prec <= 18,
        initial_time <= block_time,
    ensures
        match r {
            Ok(v) => simulate_spec(
                asset_amounts@[0]@,
                asset_amounts@[1]@,
                offer_amount@,
                offer_asset_prec as nat,
                ask_ind as int,
                ask_asset_prec as nat,
                maker_fee_share@,
                oracle_price@,
                price_scale@,
                fee_gamma@,
                mid_fee@,
                out_fee@,
                block_time as int,
                initial_time as int,
                initial_amp@,
                initial_gamma@,
                future_time as int,
                future_amp@,
                future_gamma@,
            ) == Ok::<(int, int, int), MathError>(
                (v.return_amount as int, v.spread_amount as int, v.commission_amount as int),
            ),
            Err(e) => simulate_spec(
                asset_amounts@[0]@,
                asset_amounts@[1]@,
                offer_amount@,
                offer_asset_prec as nat,
                ask_ind as int,
                ask_asset_prec as nat,
                maker_fee_share@,
                oracle_price@,
                price_scale@,
                fee_gamma@,
                mid_fee@,
                out_fee@,
                block_time as int,
                initial_time as int,
                initial_amp@,
                initial_gamma@,
                future_time as int,
                future_amp@,
                future_gamma@,
            ) == Err::<(int, int, int), MathError>(e),
        },
{
    let offer = match rescale(&offer_amount, offer_asset_prec) {
        Ok(v) => v,
        Err(e) => {
            return Err(e);
        },
    };
    let p0 = if ask_ind == 0 {
        ask_asset_prec
    } else {
        offer_asset_prec
    };
    let p1 = if ask_ind == 1 {
        ask_asset_prec
    } else {
        offer_asset_prec
    };
    let r0 = match rescale(&asset_amounts[0], p0) {
        Ok(v) => v,
        Err(e) => {
            return Err(e);
        },
    };
    let r1 = match rescale(&asset_amounts[1], p1) {
        Ok(v) => v,
        Err(e) => {
            return Err(e);
        },
    };
    let rs = [r0, r1];
    let swap_result = match compute_swap(
        &rs,
        offer,
        ask_ind,
        maker_fee_share,
        oracle_price,
        price_scale,
        fee_gamma,
        mid_fee,
        out_fee,
        block_time,
        initial_time,
        initial_amp,
        initial_gamma,
        future_time,
        future_amp,
        future_gamma,
    ) {
        Ok(v) => v,
        Err(e) => {
            return Err(e);
        },
    };
    let return_amount = match swap_result.dy.to_uint(ask_asset_prec) {
        Ok(v) => v,
        Err(e) => {
            return Err(e);
        },
    };
    let spread_amount = match swap_result.spread_fee.to_uint(ask_asset_prec) {
        Ok(v) => v,
        Err(e) => {
            return Err(e);
        },
    };
    let commission_amount = match swap_result.total_fee.to_uint(ask_asset_prec) {
        Ok(v) => v,
        Err(e) => {
            return Err(e);
        },
    };
    Ok(SwapSimulationResponse { return_amount, spread_amount, commission_amount })
}

} // verus!
