use vstd::prelude::*;

use crate::dec256::{ddiv, dmul, ten_pow, Dec256};
use crate::error::MathError;
use crate::pair_stable::consts::{ITERATIONS, N_COINS, N_COINS_PLUS_ONE, STABLE_TOL};
use crate::u256::{lim256, limb_base, unit, ATOMICS_PER_UNIT};

verus! {

/// The stableswap leverage `amp * N`, in atomic units.
pub open spec fn ann_of(amp: int) -> int {
    (2 * amp) * unit()
}

/// One fixed-point step of the stableswap invariant iteration:
/// `d' = (ann sum + 2 d_p) d / ((ann - 1) d + 3 d_p)` with
/// `d_p = d^3 / (4 x0 x1)`, every operation floored in order. At the fixed
/// point this is the invariant `ann (x0 + x1) + d = ann d + d_p`.
pub open spec fn stable_d_step(d: int, x0: int, x1: int, ann: int, ann_sum: int) -> Result<
    int,
    MathError,
> {
    if dmul(x0, N_COINS as int) >= lim256() {
        Err(MathError::Overflow)
    } else {
        let den0 = dmul(x0, N_COINS as int);
        if den0 == 0 {
            Err(MathError::DivideByZero)
        } else if (d * d) / den0 >= lim256() {
            Err(MathError::Overflow)
        } else {
            let dp1 = (d * d) / den0;
            if dmul(x1, N_COINS as int) >= lim256() {
                Err(MathError::Overflow)
            } else {
                let den1 = dmul(x1, N_COINS as int);
                if den1 == 0 {
                    Err(MathError::DivideByZero)
                } else if (dp1 * d) / den1 >= lim256() {
                    Err(MathError::Overflow)
                } else {
                    let dp = (dp1 * d) / den1;
                    if dmul(dp, N_COINS as int) >= lim256() {
                        Err(MathError::Overflow)
                    } else if ann_sum + dmul(dp, N_COINS as int) >= lim256() {
                        Err(MathError::Overflow)
                    } else {
                        let num1 = ann_sum + dmul(dp, N_COINS as int);
                        if dmul(num1, d) >= lim256() {
                            Err(MathError::Overflow)
                        } else if ann < unit() {
                            Err(MathError::Overflow)
                        } else if dmul(ann - unit(), d) >= lim256() {
                            Err(MathError::Overflow)
                        } else if dmul(dp, N_COINS_PLUS_ONE as int) >= lim256() {
                            Err(MathError::Overflow)
                        } else if dmul(ann - unit(), d) + dmul(dp, N_COINS_PLUS_ONE as int)
                            >= lim256() {
                            Err(MathError::Overflow)
                        } else {
                            let den = dmul(ann - unit(), d) + dmul(dp, N_COINS_PLUS_ONE as int);
                            if den == 0 {
                                Err(MathError::DivideByZero)
                            } else if ddiv(dmul(num1, d), den) >= lim256() {
                                Err(MathError::Overflow)
                            } else {
                                Ok(ddiv(dmul(num1, d), den))
                            }
                        }
                    }
                }
            }
        }
    }
}

/// The stableswap invariant iteration: step from `d`; once the step moves
/// by at most [`STABLE_TOL`] its result is the invariant, and exhausted
/// fuel is the non-convergence error.
pub open spec fn stable_d_loop(d: int, x0: int, x1: int, ann: int, ann_sum: int, fuel: nat) -> Result<
    int,
    MathError,
>
    decreases fuel,
{
    if fuel == 0 {
        Err(MathError::ComputeDNotConverging)
    } else {
        match stable_d_step(d, x0, x1, ann, ann_sum) {
            Err(e) => Err(e),
            Ok(dn) => if (if dn >= d {
                dn - d
            } else {
                d - dn
            }) <= STABLE_TOL as int {
                Ok(dn)
            } else {
                stable_d_loop(dn, x0, x1, ann, ann_sum, (fuel - 1) as nat)
            },
        }
    }
}

/// The stableswap invariant: zero on an empty side, otherwise the fixed
/// point of [`stable_d_step`] seeded at the sum of the reserves.
pub open spec fn compute_d_spec(x0: int, x1: int, amp: int) -> Result<int, MathError> {
    if x0 == 0 || x1 == 0 {
        Ok(0)
    } else if x0 + x1 >= lim256() {
        Err(MathError::Overflow)
    } else if dmul(ann_of(amp), x0 + x1) >= lim256() {
        Err(MathError::Overflow)
    } else {
        stable_d_loop(
            x0 + x1,
            x0,
            x1,
            ann_of(amp),
            dmul(ann_of(amp), x0 + x1),
            ITERATIONS as nat,
        )
    }
}

/// The stableswap leverage as an 18-digit value.
fn ann_dec(amp: u64) -> (r: Dec256)
    ensures
        r@ == ann_of(amp as int),
{
    Dec256::raw((2 * (amp as u128)) * ATOMICS_PER_UNIT)
}

/// The stableswap invariant `D` of the reserves; the result is pinned to
/// [`compute_d_spec`].
pub fn compute_d(amp: u64, pools: &[Dec256]) -> (r: Result<Dec256, MathError>)
    requires
        pools@.len() == 2,
    ensures
        match r {
            Ok(v) => compute_d_spec(pools@[0]@, pools@[1]@, amp as int) == Ok::<int, MathError>(
                v@,
            ),
            Err(e) => compute_d_spec(pools@[0]@, pools@[1]@, amp as int) == Err::<int, MathError>(
                e,
            ),
        },
{
    let x0 = pools[0];
    let x1 = pools[1];
    if x0.is_zero() || x1.is_zero() {
        return Ok(Dec256::zero());
    }
    let ann = ann_dec(amp);
    let sum_x = match x0.checked_add(&x1) {
        Some(v) => v,
        None => {
            return Err(MathError::Overflow);
        },
    };
    let ann_sum_x = match ann.checked_mul(&sum_x) {
        Some(v) => v,
        None => {
            return Err(MathError::Overflow);
        },
    };
    let two = Dec256::raw(N_COINS);
    let three = Dec256::raw(N_COINS_PLUS_ONE);
    let one = Dec256::one();
    let tol = Dec256::raw(STABLE_TOL);
    let mut d = sum_x;
    let mut i: usize = 0;
    while i < ITERATIONS
        invariant
            i <= ITERATIONS,
            two@ == N_COINS as int,
            three@ == N_COINS_PLUS_ONE as int,
            one@ == unit(),
            tol@ == STABLE_TOL as int,
            x0@ == pools@[0]@,
            x1@ == pools@[1]@,
            ann@ == ann_of(amp as int),
            ann_sum_x@ == dmul(ann_of(amp as int), x0@ + x1@),
            stable_d_loop(d@, x0@, x1@, ann@, ann_sum_x@, (ITERATIONS - i) as nat)
                == compute_d_spec(pools@[0]@, pools@[1]@, amp as int),
        decreases ITERATIONS - i,
    {
        let den0 = match x0.checked_mul(&two) {
            Some(v) => v,
            None => {
                return Err(MathError::Overflow);
            },
        };
        let dp1 = match d.checked_multiply_ratio(&d, &den0) {
            Ok(v) => v,
            Err(e) => {
                return Err(e);
            },
        };
        let den1 = match x1.checked_mul(&two) {
            Some(v) => v,
            None => {
                return Err(MathError::Overflow);
            },
        };
        let dp = match dp1.checked_multiply_ratio(&d, &den1) {
            Ok(v) => v,
            Err(e) => {
                return Err(e);
            },
        };
        let t1 = match dp.checked_mul(&two) {
            Some(v) => v,
            None => {
                return Err(MathError::Overflow);
            },
        };
        let num1 = match ann_sum_x.checked_add(&t1) {
            Some(v) => v,
            None => {
                return Err(MathError::Overflow);
            },
        };
        let num = match num1.checked_mul(&d) {
            Some(v) => v,
            None => {
                return Err(MathError::Overflow);
            },
        };
        let g1 = match ann.checked_sub(&one) {
            Some(v) => v,
            None => {
                return Err(MathError::Overflow);
            },
        };
        let den2 = match g1.checked_mul(&d) {
            Some(v) => v,
            None => {
                return Err(MathError::Overflow);
            },
        };
        let den3 = match dp.checked_mul(&three) {
            Some(v) => v,
            None => {
                return Err(MathError::Overflow);
            },
        };
        let den4 = match den2.checked_add(&den3) {
            Some(v) => v,
            None => {
                return Err(MathError::Overflow);
            },
        };
        let dn = match num.checked_div(&den4) {
            Ok(v) => v,
            Err(e) => {
                return Err(e);
            },
        };
        if dn.diff(&d).le(&tol) {
            return Ok(dn);
        }
        d = dn;
        i = i + 1;
    }
    Err(MathError::ComputeDNotConverging)
}

/// One fixed-point step of the one-reserve solve: `y' = (y^2 + c)/(2y + b - d)`.
pub open spec fn stable_y_step(y: int, b: int, c: int, d: int) -> Result<int, MathError> {
    if dmul(y, y) >= lim256() {
        Err(MathError::Overflow)
    } else if dmul(y, y) + c >= lim256() {
        Err(MathError::Overflow)
    } else if y + y >= lim256() {
        Err(MathError::Overflow)
    } else if y + y + b >= lim256() {
        Err(MathError::Overflow)
    } else if y + y + b < d {
        Err(MathError::Overflow)
    } else {
        let den = y + y + b - d;
        if den == 0 {
            Err(MathError::DivideByZero)
        } else if ddiv(dmul(y, y) + c, den) >= lim256() {
            Err(MathError::Overflow)
        } else {
            Ok(ddiv(dmul(y, y) + c, den))
        }
    }
}

/// The one-reserve iteration, seeded at the invariant `d`.
pub open spec fn stable_y_loop(y: int, b: int, c: int, d: int, fuel: nat) -> Result<int, MathError>
    decreases fuel,
{
    if fuel == 0 {
        Err(MathError::YNotConverging)
    } else {
        match stable_y_step(y, b, c, d) {
            Err(e) => Err(e),
            Ok(yn) => if (if yn >= y {
                yn - y
            } else {
                y - yn
            }) <= STABLE_TOL as int {
                Ok(yn)
            } else {
                stable_y_loop(yn, b, c, d, (fuel - 1) as nat)
            },
        }
    }
}

/// The tail of the one-reserve solve: a solved reserve is truncated to the
/// target precision and narrowed to 128 bits; a solver error passes
/// through.
pub open spec fn stable_y_finish(lr: Result<int, MathError>, target_precision: nat) -> Result<
    int,
    MathError,
> {
    match lr {
        Err(e) => Err(e),
        Ok(y) => {
            let w = y / ten_pow((18 - target_precision) as nat);
            if w >= limb_base() {
                Err(MathError::ConversionOverflow)
            } else {
                Ok(w)
            }
        },
    }
}

/// The post-trade reserve on the ask side at `target_precision` fractional
/// digits, given the new offer-side total `new_amount`: the root of
/// `y^2 + y (b - d) = c` with `b = new_amount + d/ann` and
/// `c = d^3 / (4 new_amount ann)`, truncated to the target precision.
pub open spec fn stable_y_spec(
    x0: int,
    x1: int,
    amp: int,
    new_amount: int,
    target_precision: nat,
) -> Result<int, MathError> {
    match compute_d_spec(x0, x1, amp) {
        Err(e) => Err(e),
        Ok(d) => {
            let ann = ann_of(amp);
            if dmul(new_amount, N_COINS as int) >= lim256() {
                Err(MathError::Overflow)
            } else {
                let den_a = dmul(new_amount, N_COINS as int);
                if dmul(d, d) >= lim256() {
                    Err(MathError::Overflow)
                } else if den_a == 0 {
                    Err(MathError::DivideByZero)
                } else if ddiv(dmul(d, d), den_a) >= lim256() {
                    Err(MathError::Overflow)
                } else {
                    let c2 = ddiv(dmul(d, d), den_a);
                    if dmul(ann, N_COINS as int) >= lim256() {
                        Err(MathError::Overflow)
                    } else {
                        let den_b = dmul(ann, N_COINS as int);
                        if den_b == 0 {
                            Err(MathError::DivideByZero)
                        } else if (c2 * d) / den_b >= lim256() {
                            Err(MathError::Overflow)
                        } else {
                            let c = (c2 * d) / den_b;
                            if ann == 0 {
                                Err(MathError::DivideByZero)
                            } else if ddiv(d, ann) >= lim256() {
                                Err(MathError::Overflow)
                            } else if new_amount + ddiv(d, ann) >= lim256() {
                                Err(MathError::Overflow)
                            } else {
                                let b = new_amount + ddiv(d, ann);
                                stable_y_finish(
                                    stable_y_loop(d, b, c, d, ITERATIONS as nat),
                                    target_precision,
                                )
                            }
                        }
                    }
                }
            }
        },
    }
}

/// Solve for the ask-side reserve after the offer side moved to
/// `new_amount`; the result is a native integer amount at
/// `target_precision` fractional digits, pinned to [`stable_y_spec`].
pub fn calc_y(amp: u64, new_amount: Dec256, xp: &[Dec256], target_precision: u32) -> (r: Result<
    u128,
    MathError,
>)
    requires
        xp@.len() == 2,
        target_precision <= 18,
    ensures
        match r {
            Ok(v) => stable_y_spec(xp@[0]@, xp@[1]@, amp as int, new_amount@, target_precision as nat)
                == Ok::<int, MathError>(v as int),
            Err(e) => stable_y_spec(
                xp@[0]@,
                xp@[1]@,
                amp as int,
                new_amount@,
                target_precision as nat,
            ) == Err::<int, MathError>(e),
        },
{
    let d = match compute_d(amp, xp) {
        Ok(v) => v,
        Err(e) => {
            return Err(e);
        },
    };
    let ann = ann_dec(amp);
    let two = Dec256::raw(N_COINS);
    let den_a = match new_amount.checked_mul(&two) {
        Some(v) => v,
        None => {
            return Err(MathError::Overflow);
        },
    };
    let c1 = match d.checked_mul(&d) {
        Some(v) => v,
        None => {
            return Err(MathError::Overflow);
        },
    };
    let c2 = match c1.checked_div(&den_a) {
        Ok(v) => v,
        Err(e) => {
            return Err(e);
        },
    };
    let den_b = match ann.checked_mul(&two) {
        Some(v) => v,
        None => {
            return Err(MathError::Overflow);
        },
    };
    let c = match c2.checked_multiply_ratio(&d, &den_b) {
        Ok(v) => v,
        Err(e) => {
            return Err(e);
        },
    };
    let q = match d.checked_div(&ann) {
        Ok(v) => v,
        Err(e) => {
            return Err(e);
        },
    };
    let b = match new_amount.checked_add(&q) {
        Some(v) => v,
        None => {
            return Err(MathError::Overflow);
        },
    };
    let tol = Dec256::raw(STABLE_TOL);
    let mut y = d;
    let mut i: usize = 0;
    while i < ITERATIONS
        invariant
            i <= ITERATIONS,
            tol@ == STABLE_TOL as int,
            target_precision <= 18,
            stable_y_finish(
                stable_y_loop(y@, b@, c@, d@, (ITERATIONS - i) as nat),
                target_precision as nat,
            ) == stable_y_spec(
                xp@[0]@,
                xp@[1]@,
                amp as int,
                new_amount@,
                target_precision as nat,
            ),
        decreases ITERATIONS - i,
    {
        let y2 = match y.checked_mul(&y) {
            Some(v) => v,
            None => {
                return Err(MathError::Overflow);
            },
        };
        let num = match y2.checked_add(&c) {
            Some(v) => v,
            None => {
                return Err(MathError::Overflow);
            },
        };
        let dbl = match y.checked_add(&y) {
            Some(v) => v,
            None => {
                return Err(MathError::Overflow);
            },
        };
        let den1 = match dbl.checked_add(&b) {
            Some(v) => v,
            None => {
                return Err(MathError::Overflow);
            },
        };
        let den2 = match den1.checked_sub(&d) {
            Some(v) => v,
            None => {
                return Err(MathError::Overflow);
            },
        };
        let yn = match num.checked_div(&den2) {
            Ok(v) => v,
            Err(e) => {
                return Err(e);
            },
        };
        if yn.diff(&y).le(&tol) {
            proof {
                assert(stable_y_loop(y@, b@, c@, d@, (ITERATIONS - i) as nat) == Ok::<
                    int,
                    MathError,
                >(yn@));
            }
            return yn.to_uint128_with_precision(target_precision);
        }
        y = yn;
        i = i + 1;
    }
    Err(MathError::YNotConverging)
}

} // verus!
