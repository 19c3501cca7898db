use vstd::prelude::*;

use crate::dec128::Dec128;
use crate::dec256::{ddiv, dmul, dpow, Dec256};
use crate::error::MathError;
use crate::pair_concentrated::consts::{FEE_TOL, N_POW2};
use crate::u256::{lim256, limb_base, unit};

verus! {

/// The curve parameters at a point in time. Both are positive and
/// dimensionless.
#[derive(Clone, Copy, Debug, PartialEq, Eq)]
pub struct AmpGamma {
    pub amp: Dec128,
    pub gamma: Dec128,
}

/// Linear interpolation of one ramped parameter, on atomic units:
/// `(init * left + future * passed) / total` where `total` and `passed`
/// are whole numbers of units (seconds scaled by `10^18`) and
/// `left = total - passed`.
pub open spec fn ramp_interp(init_v: int, fut_v: int, total: int, passed: int) -> Result<
    int,
    MathError,
> {
    let left = total - passed;
    if dmul(init_v, left) >= limb_base() {
        Err(MathError::Overflow)
    } else if dmul(fut_v, passed) >= limb_base() {
        Err(MathError::Overflow)
    } else if dmul(init_v, left) + dmul(fut_v, passed) >= limb_base() {
        Err(MathError::Overflow)
    } else if total == 0 {
        Err(MathError::DivideByZero)
    } else if ddiv(dmul(init_v, left) + dmul(fut_v, passed), total) >= limb_base() {
        Err(MathError::Overflow)
    } else {
        Ok(ddiv(dmul(init_v, left) + dmul(fut_v, passed), total))
    }
}

/// The ramped `(amp, gamma)` at `block_time`: inside the window both
/// parameters are interpolated linearly between their initial and future
/// values (amp first, so an amp failure wins); at or past `future_time`
/// they are clamped to the future values.
pub open spec fn amp_gamma_spec(
    block_time: int,
    initial_time: int,
    initial_amp: int,
    initial_gamma: int,
    future_time: int,
    future_amp: int,
    future_gamma: int,
) -> Result<(int, int), MathError> {
    if block_time < future_time {
        let total = (future_time - initial_time) * unit();
        let passed = (block_time - initial_time) * unit();
        match ramp_interp(initial_amp, future_amp, total, passed) {
            Err(e) => Err(e),
            Ok(amp) => match ramp_interp(initial_gamma, future_gamma, total, passed) {
                Err(e) => Err(e),
                Ok(gamma) => Ok((amp, gamma)),
            },
        }
    } else {
        Ok((future_amp, future_gamma))
    }
}

/// Current curve parameters under the linear ramp; the result is pinned to
/// [`amp_gamma_spec`].
pub fn get_amp_gamma(
    block_time: u64,
    initial_time: u64,
    initial_amp: Dec128,
    initial_gamma: Dec128,
    future_time: u64,
    future_amp: Dec128,
    future_gamma: Dec128,
) -> (r: Result<AmpGamma, MathError>)
    requires
        initial_time <= block_time,
    ensures
        match r {
            Ok(v) => amp_gamma_spec(
                block_time as int,
                initial_time as int,
                initial_amp@,
                initial_gamma@,
                future_time as int,
                future_amp@,
                future_gamma@,
            ) == Ok::<(int, int), MathError>((v.amp@, v.gamma@)),
            Err(e) => amp_gamma_spec(
                block_time as int,
                initial_time as int,
                initial_amp@,
                initial_gamma@,
                future_time as int,
                future_amp@,
                future_gamma@,
            ) == Err::<(int, int), MathError>(e),
        },
{
    if block_time < future_time {
        let total = Dec128::from_u64(future_time - initial_time);
        let passed = Dec128::from_u64(block_time - initial_time);
        let left = total.checked_sub(&passed).unwrap();
        let amp = match ramp_one(&initial_amp, &future_amp, &total, &passed, &left) {
            Ok(v) => v,
            Err(e) => {
                return Err(e);
            },
        };
        let gamma = match ramp_one(&initial_gamma, &future_gamma, &total, &passed, &left) {
            Ok(v) => v,
            Err(e) => {
                return Err(e);
            },
        };
        Ok(AmpGamma { amp, gamma })
    } else {
        Ok(AmpGamma { amp: future_amp, gamma: future_gamma })
    }
}

/// One interpolation `(init * left + future * passed) / total`.
fn ramp_one(init_v: &Dec128, fut_v: &Dec128, total: &Dec128, passed: &Dec128, left: &Dec128) -> (r:
    Result<Dec128, MathError>)
    requires
        left@ == total@ - passed@,
    ensures
        match r {
            Ok(v) => ramp_interp(init_v@, fut_v@, total@, passed@) == Ok::<int, MathError>(v@),
            Err(e) => ramp_interp(init_v@, fut_v@, total@, passed@) == Err::<int, MathError>(e),
        },
{
    let m1 = match init_v.checked_mul(left) {
        Some(v) => v,
        None => {
            return Err(MathError::Overflow);
        },
    };
    let m2 = match fut_v.checked_mul(passed) {
        Some(v) => v,
        None => {
            return Err(MathError::Overflow);
        },
    };
    let s = match m1.checked_add(&m2) {
        Some(v) => v,
        None => {
            return Err(MathError::Overflow);
        },
    };
    s.checked_div(total)
}

/// The dynamic fee, on atomic units, in the operation order of [`fee`]:
/// the balance coefficient `k0 = x0 x1 N^2 / (x0 + x1)^2` is squeezed
/// through `k = fee_gamma / (fee_gamma + 1 - k0)`, clamped to zero at or
/// below [`FEE_TOL`], and the fee is the blend
/// `k * mid_fee + (1 - k) * out_fee`.
pub open spec fn fee_spec(x0: int, x1: int, fee_gamma: int, mid_fee: int, out_fee: int) -> Result<
    int,
    MathError,
> {
    if x0 + x1 >= lim256() {
        Err(MathError::Overflow)
    } else {
        let sum = x0 + x1;
        match dmul(x0, x1) < lim256() {
            false => Err(MathError::Overflow),
            true => {
                let t0 = dmul(x0, x1);
                if dmul(t0, N_POW2 as int) >= lim256() {
                    Err(MathError::Overflow)
                } else {
                    let t1 = dmul(t0, N_POW2 as int);
                    match dpow(sum, 2) {
                        Err(e) => Err(e),
                        Ok(sp2) => if sp2 == 0 {
                            Err(MathError::DivideByZero)
                        } else if ddiv(t1, sp2) >= lim256() {
                            Err(MathError::Overflow)
                        } else {
                            let k0 = ddiv(t1, sp2);
                            if fee_gamma + unit() >= lim256() {
                                Err(MathError::Overflow)
                            } else if fee_gamma + unit() - k0 < 0 {
                                Err(MathError::Overflow)
                            } else {
                                let den = fee_gamma + unit() - k0;
                                if den == 0 {
                                    Err(MathError::DivideByZero)
                                } else if ddiv(fee_gamma, den) >= lim256() {
                                    Err(MathError::Overflow)
                                } else {
                                    let k1 = ddiv(fee_gamma, den);
                                    let k = if k1 <= FEE_TOL as int {
                                        0
                                    } else {
                                        k1
                                    };
                                    if dmul(k, mid_fee) >= lim256() {
                                        Err(MathError::Overflow)
                                    } else if k > unit() {
                                        Err(MathError::Overflow)
                                    } else if dmul(unit() - k, out_fee) >= lim256() {
                                        Err(MathError::Overflow)
                                    } else if dmul(k, mid_fee) + dmul(unit() - k, out_fee)
                                        >= lim256() {
                                        Err(MathError::Overflow)
                                    } else {
                                        Ok(dmul(k, mid_fee) + dmul(unit() - k, out_fee))
                                    }
                                }
                            }
                        },
                    }
                }
            },
        }
    }
}

/// The dynamic fee rate for the (post-trade) reserves `xp`; the result is
/// pinned to [`fee_spec`].
pub fn fee(xp: &[Dec256], fee_gamma: &Dec256, mid_fee: &Dec256, out_fee: &Dec256) -> (r: Result<
    Dec256,
    MathError,
>)
    requires
        xp@.len() == 2,
    ensures
        match r {
            Ok(v) => fee_spec(xp@[0]@, xp@[1]@, fee_gamma@, mid_fee@, out_fee@) == Ok::<
                int,
                MathError,
            >(v@),
            Err(e) => fee_spec(xp@[0]@, xp@[1]@, fee_gamma@, mid_fee@, out_fee@) == Err::<
                int,
                MathError,
            >(e),
        },
{
    let n4 = Dec256::raw(N_POW2);
    let one = Dec256::one();
    let sum = match xp[0].checked_add(&xp[1]) {
        Some(v) => v,
        None => {
            return Err(MathError::Overflow);
        },
    };
    let t0 = match xp[0].checked_mul(&xp[1]) {
        Some(v) => v,
        None => {
            return Err(MathError::Overflow);
        },
    };
    let t1 = match t0.checked_mul(&n4) {
        Some(v) => v,
        None => {
            return Err(MathError::Overflow);
        },
    };
    let sp2 = match sum.checked_pow(2) {
        Ok(v) => v,
        Err(e) => {
            return Err(e);
        },
    };
    let k0 = match t1.checked_div(&sp2) {
        Ok(v) => v,
        Err(e) => {
            return Err(e);
        },
    };
    let g1 = match fee_gamma.checked_add(&one) {
        Some(v) => v,
        None => {
            return Err(MathError::Overflow);
        },
    };
    let den = match g1.checked_sub(&k0) {
        Some(v) => v,
        None => {
            return Err(MathError::Overflow);
        },
    };
    let k1 = match fee_gamma.checked_div(&den) {
        Ok(v) => v,
        Err(e) => {
            return Err(e);
        },
    };
    let k = if k1.le(&Dec256::raw(FEE_TOL)) {
        Dec256::zero()
    } else {
        k1
    };
    let p1 = match k.checked_mul(mid_fee) {
        Some(v) => v,
        None => {
            return Err(MathError::Overflow);
        },
    };
    let km = match one.checked_sub(&k) {
        Some(v) => v,
        None => {
            return Err(MathError::Overflow);
        },
    };
    let p2 = match km.checked_mul(out_fee) {
        Some(v) => v,
        None => {
            return Err(MathError::Overflow);
        },
    };
    match p1.checked_add(&p2) {
        Some(v) => Ok(v),
        None => Err(MathError::Overflow),
    }
}

/// The blended fee `floor(k*mid/u) + floor((u-k)*out/u)` for a balance
/// coefficient `k` between zero and one lies between `mid_fee` (within one
/// atomic unit, lost to flooring) and `out_fee`.
proof fn lemma_fee_blend_bounds(k: int, mid: int, out: int)
    requires
        0 <= k <= unit(),
        0 <= mid <= out,
    ensures
        mid - 1 <= dmul(k, mid) + dmul(unit() - k, out),
        dmul(k, mid) + dmul(unit() - k, out) <= out,
{
    let u = unit();
    let a = k * mid;
    let b = (u - k) * out;
    vstd::arithmetic::div_mod::lemma_fundamental_div_mod(a, u);
    vstd::arithmetic::div_mod::lemma_mod_bound(a, u);
    vstd::arithmetic::div_mod::lemma_fundamental_div_mod(b, u);
    vstd::arithmetic::div_mod::lemma_mod_bound(b, u);
    assert(a + b <= u * out) by (nonlinear_arith)
        requires
            a == k * mid,
            b == (u - k) * out,
            0 <= k <= u,
            0 <= mid <= out,
    ;
    assert(a + b >= u * mid) by (nonlinear_arith)
        requires
            a == k * mid,
            b == (u - k) * out,
            0 <= k <= u,
            0 <= mid <= out,
    ;
    let f = a / u + b / u;
    assert(u * f == a - a % u + b - b % u) by (nonlinear_arith)
        requires
            a == u * (a / u) + a % u,
            b == u * (b / u) + b % u,
            f == a / u + b / u,
    ;
    assert(f <= out) by (nonlinear_arith)
        requires
            u * f == a - a % u + b - b % u,
            0 <= a % u,
            0 <= b % u,
            a + b <= u * out,
            u > 0,
    ;
    assert(f >= mid - 1) by (nonlinear_arith)
        requires
            u * f == a - a % u + b - b % u,
            a % u < u,
            b % u < u,
            a + b >= u * mid,
            u > 0,
    ;
}

/// Fee bounds: whenever the dynamic fee is defined, it is at most
/// `out_fee`, and at least `mid_fee` up to one atomic unit (`10^-18`) lost
/// to flooring. The balance coefficient never leaves `[0, 1]` on a
/// successful evaluation, so the fee is a convex blend of the two bounds.
pub proof fn lemma_fee_bounds(x0: int, x1: int, fee_gamma: int, mid_fee: int, out_fee: int)
    requires
        0 <= fee_gamma,
        0 <= mid_fee <= out_fee,
    ensures
        fee_spec(x0, x1, fee_gamma, mid_fee, out_fee) matches Ok(f) ==> mid_fee - 1 <= f <= out_fee,
{
    match fee_spec(x0, x1, fee_gamma, mid_fee, out_fee) {
        Ok(f) => {
            let sum = x0 + x1;
            let t1 = dmul(dmul(x0, x1), N_POW2 as int);
            let sp2 = dpow(sum, 2)->Ok_0;
            let k0 = ddiv(t1, sp2);
            let den = fee_gamma + unit() - k0;
            let k1 = ddiv(fee_gamma, den);
            let k = if k1 <= FEE_TOL as int {
                0int
            } else {
                k1
            };
            assert(den > 0);
            assert(fee_gamma * unit() >= 0) by (nonlinear_arith)
                requires
                    fee_gamma >= 0,
            ;
            vstd::arithmetic::div_mod::lemma_div_pos_is_pos(fee_gamma * unit(), den);
            assert(0 <= k <= unit());
            assert(f == dmul(k, mid_fee) + dmul(unit() - k, out_fee));
            lemma_fee_blend_bounds(k, mid_fee, out_fee);
        },
        Err(_) => {},
    }
}

/// One interpolation at whole-unit times is the exact integer blend
/// `floor((v0 (tt - p) + v1 p) / tt)`: scaling the whole numbers of
/// seconds by the unit cancels against the fixed-point division.
proof fn lemma_ramp_interp_value(v0: int, v1: int, tt: int, p: int)
    requires
        0 < tt,
        0 <= p <= tt,
        0 <= v0,
        0 <= v1,
    ensures
        ramp_interp(v0, v1, tt * unit(), p * unit()) matches Ok(a) ==> a == (v0 * (tt - p) + v1
            * p) / tt,
{
    let u = unit();
    match ramp_interp(v0, v1, tt * u, p * u) {
        Ok(a) => {
            let l = tt - p;
            assert(tt * u - p * u == l * u) by (nonlinear_arith)
                requires
                    l == tt - p,
            ;
            assert(v0 * (l * u) == u * (v0 * l)) by (nonlinear_arith);
            vstd::arithmetic::div_mod::lemma_div_multiples_vanish(v0 * l, u);
            assert(dmul(v0, l * u) == v0 * l);
            assert(v1 * (p * u) == u * (v1 * p)) by (nonlinear_arith);
            vstd::arithmetic::div_mod::lemma_div_multiples_vanish(v1 * p, u);
            assert(dmul(v1, p * u) == v1 * p);
            let num = v0 * l + v1 * p;
            assert(num >= 0) by (nonlinear_arith)
                requires
                    num == v0 * l + v1 * p,
                    v0 >= 0,
                    v1 >= 0,
                    l >= 0,
                    p >= 0,
            ;
            assert(a == (num * u) / (tt * u));
            assert(tt * u == u * tt) by (nonlinear_arith);
            assert(num * u >= 0) by (nonlinear_arith)
                requires
                    num >= 0,
                    u > 0,
            ;
            vstd::arithmetic::div_mod::lemma_div_denominator(num * u, u, tt);
            assert(u * num == num * u) by (nonlinear_arith);
            vstd::arithmetic::div_mod::lemma_div_multiples_vanish(num, u);
            assert((num * u) / u == num);
            assert(a == num / tt);
        },
        Err(_) => {},
    }
}

/// Ramp monotonicity: with the amplification ramping upward
/// (`initial_amp <= future_amp`), the interpolated amplification never
/// decreases as the block time advances, and from `future_time` on it is
/// clamped to `future_amp` exactly.
pub proof fn lemma_amp_ramp_monotonic(
    block_time_1: int,
    block_time_2: int,
    initial_time: int,
    initial_amp: int,
    initial_gamma: int,
    future_time: int,
    future_amp: int,
    future_gamma: int,
)
    requires
        initial_time <= block_time_1 <= block_time_2,
        0 <= initial_amp <= future_amp,
        0 <= initial_gamma,
    ensures
        amp_gamma_spec(
            block_time_1,
            initial_time,
            initial_amp,
            initial_gamma,
            future_time,
            future_amp,
            future_gamma,
        ) matches Ok(r1) ==> (amp_gamma_spec(
            block_time_2,
            initial_time,
            initial_amp,
            initial_gamma,
            future_time,
            future_amp,
            future_gamma,
        ) matches Ok(r2) ==> r1.0 <= r2.0),
        block_time_2 >= future_time ==> (amp_gamma_spec(
            block_time_2,
            initial_time,
            initial_amp,
            initial_gamma,
            future_time,
            future_amp,
            future_gamma,
        ) matches Ok(r2) ==> r2.0 == future_amp),
{
    let tt = future_time - initial_time;
    let p1 = block_time_1 - initial_time;
    let p2 = block_time_2 - initial_time;
    if block_time_1 < future_time {
        lemma_ramp_interp_value(initial_amp, future_amp, tt, p1);
    }
    if block_time_2 < future_time {
        lemma_ramp_interp_value(initial_amp, future_amp, tt, p2);
    }
    if block_time_1 < future_time && block_time_2 < future_time {
        let n1 = initial_amp * (tt - p1) + future_amp * p1;
        let n2 = initial_amp * (tt - p2) + future_amp * p2;
        assert(n1 <= n2) by (nonlinear_arith)
            requires
                n1 == initial_amp * (tt - p1) + future_amp * p1,
                n2 == initial_amp * (tt - p2) + future_amp * p2,
                p1 <= p2,
                initial_amp <= future_amp,
        ;
        vstd::arithmetic::div_mod::lemma_div_is_ordered(n1, n2, tt);
    } else if block_time_1 < future_time {
        let n1 = initial_amp * (tt - p1) + future_amp * p1;
        assert(n1 <= future_amp * tt) by (nonlinear_arith)
            requires
                n1 == initial_amp * (tt - p1) + future_amp * p1,
                0 <= p1 <= tt,
                0 <= initial_amp <= future_amp,
        ;
        vstd::arithmetic::div_mod::lemma_div_is_ordered(n1, future_amp * tt, tt);
        assert(tt * future_amp == future_amp * tt) by (nonlinear_arith);
        vstd::arithmetic::div_mod::lemma_div_multiples_vanish(future_amp, tt);
    }
}

} // verus!
