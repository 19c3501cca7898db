use vstd::prelude::*;

use crate::dec256::{dpow, Dec256};
use crate::error::MathError;
use crate::pair_concentrated::consts::{MAX_ITER, N, N_POW2, N_POW3, PADDING, TOL};
use crate::pair_concentrated::signed_decimal::{
    sd_add, sd_div, sd_diff, sd_mul, sd_neg, sd_of, sd_pow, sd_sub, sd_try_into, SdVal,
    SignedDecimal256,
};
use crate::u256::unit;

verus! {

/// Geometric mean of a two-element reserve vector: `sqrt(x0 * x1)`, or an
/// overflow error from the product.
pub open spec fn geometric_mean_spec(x0: int, x1: int) -> Result<int, MathError> {
    if crate::dec256::dmul(x0, x1) < crate::u256::lim256() {
        Ok(crate::dec256::dec_sqrt(crate::dec256::dmul(x0, x1)))
    } else {
        Err(MathError::Overflow)
    }
}

/// Geometric mean of the two reserves.
pub fn geometric_mean(x: &[Dec256]) -> (r: Result<Dec256, MathError>)
    requires
        x@.len() == 2,
    ensures
        match r {
            Ok(v) => geometric_mean_spec(x@[0]@, x@[1]@) == Ok::<int, MathError>(v@),
            Err(e) => geometric_mean_spec(x@[0]@, x@[1]@) == Err::<int, MathError>(e),
        },
{
    match x[0].checked_mul(&x[1]) {
        Some(v) => Ok(v.sqrt()),
        None => Err(MathError::Overflow),
    }
}

/// An unsigned power lifted to a non-negative signed value.
pub open spec fn dpow_as_sd(x: int, n: nat) -> Result<SdVal, MathError> {
    match dpow(x, n) {
        Ok(v) => Ok(sd_of(v)),
        Err(e) => Err(e),
    }
}

/// The curve residual
/// `f = K D (x0 + x1) + x0 x1 - K D^2 - D^2 / N^2` with
/// `K0 = x0 x1 N^2 / D^2` and `K = A gamma^2 K0 / (gamma + 1 - K0)^2`,
/// evaluated over signed fixed-point values in the exact operation order of
/// [`f`]; the first arithmetic failure of any step is the result. The
/// coefficient `K` is derived here and the residual is assembled in
/// [`f_combine_spec`].
pub open spec fn f_spec(d: SdVal, x0: SdVal, x1: SdVal, a: int, gamma: int) -> Result<
    SdVal,
    MathError,
> {
    match sd_mul(x0, x1) {
        Err(e) => Err(e),
        Ok(mul) => {
            match sd_pow(d, 2) {
                Err(e) => Err(e),
                Ok(d2) => {
                    match sd_mul(mul, sd_of(N_POW2 as int)) {
                        Err(e) => Err(e),
                        Ok(t0) => {
                            match sd_div(t0, d2) {
                                Err(e) => Err(e),
                                Ok(k0) => {
                                    match sd_pow(sd_of(gamma), 2) {
                                        Err(e) => Err(e),
                                        Ok(g2) => {
                                            match sd_mul(sd_of(a), g2) {
                                                Err(e) => Err(e),
                                                Ok(ag2) => {
                                                    match sd_mul(ag2, k0) {
                                                        Err(e) => Err(e),
                                                        Ok(num) => {
                                                            match sd_add(sd_of(gamma), sd_of(unit())) {
                                                                Err(e) => Err(e),
                                                                Ok(g1) => {
                                                                    match sd_sub(g1, k0) {
                                                                        Err(e) => Err(e),
                                                                        Ok(gk) => {
                                                                            match sd_pow(gk, 2) {
                                                                                Err(e) => Err(e),
                                                                                Ok(gk2) => {
                                                                                    match sd_div(num, gk2) {
                                                                                        Err(e) => Err(e),
                                                                                        Ok(k) => {
                                                                                            f_combine_spec(k, d, d2, mul, x0, x1)
                                                                                        },
                                                                                    }
                                                                                },
                                                                            }
                                                                        },
                                                                    }
                                                                },
                                                            }
                                                        },
                                                    }
                                                },
                                            }
                                        },
                                    }
                                },
                            }
                        },
                    }
                },
            }
        },
    }
}

/// The residual assembled from the coefficient `K`:
/// `K D (x0 + x1) + x0 x1 - K D^2 - D^2 / N^2`.
pub open spec fn f_combine_spec(
    k: SdVal,
    d: SdVal,
    d2: SdVal,
    mul: SdVal,
    x0: SdVal,
    x1: SdVal,
) -> Result<SdVal, MathError> {
    match sd_mul(k, d) {
        Err(e) => Err(e),
        Ok(kd) => {
            match sd_add(x0, x1) {
                Err(e) => Err(e),
                Ok(xsum) => {
                    match sd_mul(kd, xsum) {
                        Err(e) => Err(e),
                        Ok(t1) => {
                            match sd_add(t1, mul) {
                                Err(e) => Err(e),
                                Ok(t2) => {
                                    match sd_mul(k, d2) {
                                        Err(e) => Err(e),
                                        Ok(t3) => {
                                            match sd_sub(t2, t3) {
                                                Err(e) => Err(e),
                                                Ok(t4) => {
                                                    match sd_div(d2, sd_of(N_POW2 as int)) {
                                                        Err(e) => Err(e),
                                                        Ok(t5) => {
                                                            sd_sub(t4, t5)
                                                        },
                                                    }
                                                },
                                            }
                                        },
                                    }
                                },
                            }
                        },
                    }
                },
            }
        },
    }
}

/// Derivative of the residual with respect to `D`, in the exact operation
/// order of [`df_dd`]: the shared coefficients are derived here, the padded
/// `K_D D` term in [`df_dd_kd_spec`], and the derivative is assembled in
/// [`df_dd_combine_spec`].
pub open spec fn df_dd_spec(d: SdVal, x0: SdVal, x1: SdVal, a: int, gamma: int) -> Result<
    SdVal,
    MathError,
> {
    match sd_mul(x0, x1) {
        Err(e) => Err(e),
        Ok(mul) => {
            match sd_pow(sd_of(gamma), 2) {
                Err(e) => Err(e),
                Ok(g2) => {
                    match sd_mul(sd_of(a), g2) {
                        Err(e) => Err(e),
                        Ok(ag2) => {
                            match sd_pow(d, 2) {
                                Err(e) => Err(e),
                                Ok(d2) => {
                                    match sd_mul(mul, sd_of(N_POW2 as int)) {
                                        Err(e) => Err(e),
                                        Ok(t0) => {
                                            match sd_div(t0, d2) {
                                                Err(e) => Err(e),
                                                Ok(k0) => {
                                                    match sd_add(sd_of(gamma), sd_of(unit())) {
                                                        Err(e) => Err(e),
                                                        Ok(g1) => {
                                                            match sd_sub(g1, k0) {
                                                                Err(e) => Err(e),
                                                                Ok(gk) => {
                                                                    match sd_pow(gk, 2) {
                                                                        Err(e) => Err(e),
                                                                        Ok(gk2) => {
                                                                            match sd_mul(ag2, k0) {
                                                                                Err(e) => Err(e),
                                                                                Ok(t1) => {
                                                                                    match sd_div(t1, gk2) {
                                                                                        Err(e) => Err(e),
                                                                                        Ok(k) => {
                                                                                            df_dd_kd_spec(d, x0, x1, mul, ag2, k0, g1, gk, gk2, k)
                                                                                        },
                                                                                    }
                                                                                },
                                                                            }
                                                                        },
                                                                    }
                                                                },
                                                            }
                                                        },
                                                    }
                                                },
                                            }
                                        },
                                    }
                                },
                            }
                        },
                    }
                },
            }
        },
    }
}

/// The padded term `K_D D = -x0 x1 N^3 A gamma^2 (gamma + 1 + K0) D
/// / (D^3 (gamma + 1 - K0)^3)`, with the `PADDING` factor in the numerator
/// and the denominator preserving precision when the denominator grows
/// large.
pub open spec fn df_dd_kd_spec(
    d: SdVal,
    x0: SdVal,
    x1: SdVal,
    mul: SdVal,
    ag2: SdVal,
    k0: SdVal,
    g1: SdVal,
    gk: SdVal,
    gk2: SdVal,
    k: SdVal,
) -> Result<SdVal, MathError> {
    match sd_pow(d, 3) {
        Err(e) => Err(e),
        Ok(d3) => {
            match sd_mul(sd_of(PADDING as int), d3) {
                Err(e) => Err(e),
                Ok(t2) => {
                    match sd_mul(t2, gk2) {
                        Err(e) => Err(e),
                        Ok(t3) => {
                            match sd_mul(t3, gk) {
                                Err(e) => Err(e),
                                Ok(kdd) => {
                                    match sd_mul(sd_neg(mul), sd_of(N_POW3 as int)) {
                                        Err(e) => Err(e),
                                        Ok(t4) => {
                                            match sd_mul(t4, ag2) {
                                                Err(e) => Err(e),
                                                Ok(t5) => {
                                                    match sd_add(k0, g1) {
                                                        Err(e) => Err(e),
                                                        Ok(g1k) => {
                                                            match sd_mul(t5, g1k) {
                                                                Err(e) => Err(e),
                                                                Ok(kdn) => {
                                                                    match sd_mul(kdn, d) {
                                                                        Err(e) => Err(e),
                                                                        Ok(t6) => {
                                                                            match sd_mul(t6, sd_of(PADDING as int)) {
                                                                                Err(e) => Err(e),
                                                                                Ok(t7) => {
                                                                                    match sd_div(t7, kdd) {
                                                                                        Err(e) => Err(e),
                                                                                        Ok(kdt) => {
                                                                                            df_dd_combine_spec(kdt, k, d, x0, x1)
                                                                                        },
                                                                                    }
                                                                                },
                                                                            }
                                                                        },
                                                                    }
                                                                },
                                                            }
                                                        },
                                                    }
                                                },
                                            }
                                        },
                                    }
                                },
                            }
                        },
                    }
                },
            }
        },
    }
}

/// The derivative assembled from the padded `K_D D` term:
/// `(K_D D + K)(x0 + x1) - (K_D D + N K) D - D / N`.
pub open spec fn df_dd_combine_spec(
    kdt: SdVal,
    k: SdVal,
    d: SdVal,
    x0: SdVal,
    x1: SdVal,
) -> Result<SdVal, MathError> {
    match sd_add(kdt, k) {
        Err(e) => Err(e),
        Ok(t8) => {
            match sd_add(x0, x1) {
                Err(e) => Err(e),
                Ok(xsum) => {
                    match sd_mul(t8, xsum) {
                        Err(e) => Err(e),
                        Ok(t9) => {
                            match sd_mul(k, sd_of(N as int)) {
                                Err(e) => Err(e),
                                Ok(nk) => {
                                    match sd_add(kdt, nk) {
                                        Err(e) => Err(e),
                                        Ok(t10) => {
                                            match sd_mul(t10, d) {
                                                Err(e) => Err(e),
                                                Ok(t11) => {
                                                    match sd_sub(t9, t11) {
                                                        Err(e) => Err(e),
                                                        Ok(t12) => {
                                                            match sd_div(d, sd_of(N as int)) {
                                                                Err(e) => Err(e),
                                                                Ok(dn) => {
                                                                    sd_sub(t12, dn)
                                                                },
                                                            }
                                                        },
                                                    }
                                                },
                                            }
                                        },
                                    }
                                },
                            }
                        },
                    }
                },
            }
        },
    }
}

/// Derivative of the residual with respect to the reserve `x_i` (`xr` is
/// the other reserve), in the exact operation order of [`df_dx`]: the
/// shared coefficients are derived here, the padded `K_x` term in
/// [`df_dx_kx_spec`], and the derivative is assembled in
/// [`df_dx_combine_spec`].
pub open spec fn df_dx_spec(dv: int, x0: SdVal, x1: SdVal, xr: SdVal, a: int, gamma: int) -> Result<
    SdVal,
    MathError,
> {
    match dpow_as_sd(dv, 2) {
        Err(e) => Err(e),
        Ok(d2) => {
            match sd_mul(x0, x1) {
                Err(e) => Err(e),
                Ok(t0) => {
                    match sd_mul(t0, sd_of(N_POW2 as int)) {
                        Err(e) => Err(e),
                        Ok(t1) => {
                            match sd_div(t1, d2) {
                                Err(e) => Err(e),
                                Ok(k0) => {
                                    match sd_add(sd_of(gamma), sd_of(unit())) {
                                        Err(e) => Err(e),
                                        Ok(g1) => {
                                            match sd_sub(g1, k0) {
                                                Err(e) => Err(e),
                                                Ok(gk) => {
                                                    match sd_pow(gk, 2) {
                                                        Err(e) => Err(e),
                                                        Ok(gk2) => {
                                                            match sd_pow(sd_of(gamma), 2) {
                                                                Err(e) => Err(e),
                                                                Ok(g2) => {
                                                                    match sd_mul(sd_of(a), g2) {
                                                                        Err(e) => Err(e),
                                                                        Ok(ag2) => {
                                                                            match sd_mul(k0, ag2) {
                                                                                Err(e) => Err(e),
                                                                                Ok(t2) => {
                                                                                    match sd_div(t2, gk2) {
                                                                                        Err(e) => Err(e),
                                                                                        Ok(k) => {
                                                                                            df_dx_kx_spec(dv, x0, x1, xr, d2, ag2, k0, g1, gk, gk2, k)
                                                                                        },
                                                                                    }
                                                                                },
                                                                            }
                                                                        },
                                                                    }
                                                                },
                                                            }
                                                        },
                                                    }
                                                },
                                            }
                                        },
                                    }
                                },
                            }
                        },
                    }
                },
            }
        },
    }
}

/// The padded term
/// `K_x = x_r N^2 A gamma^2 (gamma + 1 + K0) / (D^2 (gamma + 1 - K0)^3)`.
pub open spec fn df_dx_kx_spec(
    dv: int,
    x0: SdVal,
    x1: SdVal,
    xr: SdVal,
    d2: SdVal,
    ag2: SdVal,
    k0: SdVal,
    g1: SdVal,
    gk: SdVal,
    gk2: SdVal,
    k: SdVal,
) -> Result<SdVal, MathError> {
    match sd_mul(xr, sd_of(N_POW2 as int)) {
        Err(e) => Err(e),
        Ok(k0x) => {
            match sd_mul(k0x, ag2) {
                Err(e) => Err(e),
                Ok(t3) => {
                    match sd_add(k0, g1) {
                        Err(e) => Err(e),
                        Ok(g1k) => {
                            match sd_mul(t3, g1k) {
                                Err(e) => Err(e),
                                Ok(t4) => {
                                    match sd_mul(t4, sd_of(PADDING as int)) {
                                        Err(e) => Err(e),
                                        Ok(num) => {
                                            match sd_mul(sd_of(PADDING as int), d2) {
                                                Err(e) => Err(e),
                                                Ok(pd2) => {
                                                    match sd_mul(gk, pd2) {
                                                        Err(e) => Err(e),
                                                        Ok(t5) => {
                                                            match sd_mul(t5, gk2) {
                                                                Err(e) => Err(e),
                                                                Ok(den) => {
                                                                    match sd_div(num, den) {
                                                                        Err(e) => Err(e),
                                                                        Ok(kx) => {
                                                                            df_dx_combine_spec(kx, k, dv, d2, xr, x0, x1)
                                                                        },
                                                                    }
                                                                },
                                                            }
                                                        },
                                                    }
                                                },
                                            }
                                        },
                                    }
                                },
                            }
                        },
                    }
                },
            }
        },
    }
}

/// The derivative assembled from the `K_x` term:
/// `(K_x (x0 + x1) + K) D + x_r - K_x D^2`.
pub open spec fn df_dx_combine_spec(
    kx: SdVal,
    k: SdVal,
    dv: int,
    d2: SdVal,
    xr: SdVal,
    x0: SdVal,
    x1: SdVal,
) -> Result<SdVal, MathError> {
    match sd_add(x0, x1) {
        Err(e) => Err(e),
        Ok(xsum) => {
            match sd_mul(kx, xsum) {
                Err(e) => Err(e),
                Ok(t6) => {
                    match sd_add(t6, k) {
                        Err(e) => Err(e),
                        Ok(t7) => {
                            match sd_mul(t7, sd_of(dv)) {
                                Err(e) => Err(e),
                                Ok(t8) => {
                                    match sd_add(t8, xr) {
                                        Err(e) => Err(e),
                                        Ok(t9) => {
                                            match sd_mul(kx, d2) {
                                                Err(e) => Err(e),
                                                Ok(t10) => {
                                                    sd_sub(t9, t10)
                                                },
                                            }
                                        },
                                    }
                                },
                            }
                        },
                    }
                },
            }
        },
    }
}

/// The residual `f(D, x)`; see [`f_spec`].
#[verifier::rlimit(60)]
pub fn f(
    d: &SignedDecimal256,
    x0: &SignedDecimal256,
    x1: &SignedDecimal256,
    a: &Dec256,
    gamma: &Dec256,
) -> (r: Result<SignedDecimal256, MathError>)
    ensures
        match r {
            Ok(v) => f_spec(d@, x0@, x1@, a@, gamma@) == Ok::<SdVal, MathError>(v@),
            Err(e) => f_spec(d@, x0@, x1@, a@, gamma@) == Err::<SdVal, MathError>(e),
        },
{
    let n4 = SignedDecimal256::from_dec256(Dec256::raw(N_POW2));
    let g_sd = SignedDecimal256::from_dec256(*gamma);
    let a_sd = SignedDecimal256::from_dec256(*a);
    let one_sd = SignedDecimal256::from_dec256(Dec256::one());
    let mul = match x0.checked_mul(x1) {
        Ok(v) => v,
        Err(e) => {
            return Err(e);
        },
    };
    let d2 = match d.pow(2) {
        Ok(v) => v,
        Err(e) => {
            return Err(e);
        },
    };
    let t0 = match mul.checked_mul(&n4) {
        Ok(v) => v,
        Err(e) => {
            return Err(e);
        },
    };
    let k0 = match t0.checked_div(&d2) {
        Ok(v) => v,
        Err(e) => {
            return Err(e);
        },
    };
    let g2 = match g_sd.pow(2) {
        Ok(v) => v,
        Err(e) => {
            return Err(e);
        },
    };
    let ag2 = match a_sd.checked_mul(&g2) {
        Ok(v) => v,
        Err(e) => {
            return Err(e);
        },
    };
    let num = match ag2.checked_mul(&k0) {
        Ok(v) => v,
        Err(e) => {
            return Err(e);
        },
    };
    let g1 = match g_sd.checked_add(&one_sd) {
        Ok(v) => v,
        Err(e) => {
            return Err(e);
        },
    };
    let gk = match g1.checked_sub(&k0) {
        Ok(v) => v,
        Err(e) => {
            return Err(e);
        },
    };
    let gk2 = match gk.pow(2) {
        Ok(v) => v,
        Err(e) => {
            return Err(e);
        },
    };
    let k = match num.checked_div(&gk2) {
        Ok(v) => v,
        Err(e) => {
            return Err(e);
        },
    };
    let kd = match k.checked_mul(d) {
        Ok(v) => v,
        Err(e) => {
            return Err(e);
        },
    };
    let xsum = match x0.checked_add(x1) {
        Ok(v) => v,
        Err(e) => {
            return Err(e);
        },
    };
    let t1 = match kd.checked_mul(&xsum) {
        Ok(v) => v,
        Err(e) => {
            return Err(e);
        },
    };
    let t2 = match t1.checked_add(&mul) {
        Ok(v) => v,
        Err(e) => {
            return Err(e);
        },
    };
    let t3 = match k.checked_mul(&d2) {
        Ok(v) => v,
        Err(e) => {
            return Err(e);
        },
    };
    let t4 = match t2.checked_sub(&t3) {
        Ok(v) => v,
        Err(e) => {
            return Err(e);
        },
    };
    let t5 = match d2.checked_div(&n4) {
        Ok(v) => v,
        Err(e) => {
            return Err(e);
        },
    };
    t4.checked_sub(&t5)
}

/// The derivative `df/dD`; see [`df_dd_spec`].
#[verifier::rlimit(60)]
pub fn df_dd(
    d: &SignedDecimal256,
    x0: &SignedDecimal256,
    x1: &SignedDecimal256,
    a: &Dec256,
    gamma: &Dec256,
) -> (r: Result<SignedDecimal256, MathError>)
    ensures
        match r {
            Ok(v) => df_dd_spec(d@, x0@, x1@, a@, gamma@) == Ok::<SdVal, MathError>(v@),
            Err(e) => df_dd_spec(d@, x0@, x1@, a@, gamma@) == Err::<SdVal, MathError>(e),
        },
{
    let n2 = SignedDecimal256::from_dec256(Dec256::raw(N));
    let n4 = SignedDecimal256::from_dec256(Dec256::raw(N_POW2));
    let n8 = SignedDecimal256::from_dec256(Dec256::raw(N_POW3));
    let pad_sd = SignedDecimal256::from_dec256(Dec256::raw(PADDING));
    let g_sd = SignedDecimal256::from_dec256(*gamma);
    let a_sd = SignedDecimal256::from_dec256(*a);
    let one_sd = SignedDecimal256::from_dec256(Dec256::one());
    let mul = match x0.checked_mul(x1) {
        Ok(v) => v,
        Err(e) => {
            return Err(e);
        },
    };
    let g2 = match g_sd.pow(2) {
        Ok(v) => v,
        Err(e) => {
            return Err(e);
        },
    };
    let ag2 = match a_sd.checked_mul(&g2) {
        Ok(v) => v,
        Err(e) => {
            return Err(e);
        },
    };
    let d2 = match d.pow(2) {
        Ok(v) => v,
        Err(e) => {
            return Err(e);
        },
    };
    let t0 = match mul.checked_mul(&n4) {
        Ok(v) => v,
        Err(e) => {
            return Err(e);
        },
    };
    let k0 = match t0.checked_div(&d2) {
        Ok(v) => v,
        Err(e) => {
            return Err(e);
        },
    };
    let g1 = match g_sd.checked_add(&one_sd) {
        Ok(v) => v,
        Err(e) => {
            return Err(e);
        },
    };
    let gk = match g1.checked_sub(&k0) {
        Ok(v) => v,
        Err(e) => {
            return Err(e);
        },
    };
    let gk2 = match gk.pow(2) {
        Ok(v) => v,
        Err(e) => {
            return Err(e);
        },
    };
    let t1 = match ag2.checked_mul(&k0) {
        Ok(v) => v,
        Err(e) => {
            return Err(e);
        },
    };
    let k = match t1.checked_div(&gk2) {
        Ok(v) => v,
        Err(e) => {
            return Err(e);
        },
    };
    let d3 = match d.pow(3) {
        Ok(v) => v,
        Err(e) => {
            return Err(e);
        },
    };
    let t2 = match pad_sd.checked_mul(&d3) {
        Ok(v) => v,
        Err(e) => {
            return Err(e);
        },
    };
    let t3 = match t2.checked_mul(&gk2) {
        Ok(v) => v,
        Err(e) => {
            return Err(e);
        },
    };
    let kdd = match t3.checked_mul(&gk) {
        Ok(v) => v,
        Err(e) => {
            return Err(e);
        },
    };
    let t4 = match mul.neg().checked_mul(&n8) {
        Ok(v) => v,
        Err(e) => {
            return Err(e);
        },
    };
    let t5 = match t4.checked_mul(&ag2) {
        Ok(v) => v,
        Err(e) => {
            return Err(e);
        },
    };
    let g1k = match k0.checked_add(&g1) {
        Ok(v) => v,
        Err(e) => {
            return Err(e);
        },
    };
    let kdn = match t5.checked_mul(&g1k) {
        Ok(v) => v,
        Err(e) => {
            return Err(e);
        },
    };
    let t6 = match kdn.checked_mul(d) {
        Ok(v) => v,
        Err(e) => {
            return Err(e);
        },
    };
    let t7 = match t6.checked_mul(&pad_sd) {
        Ok(v) => v,
        Err(e) => {
            return Err(e);
        },
    };
    let kdt = match t7.checked_div(&kdd) {
        Ok(v) => v,
        Err(e) => {
            return Err(e);
        },
    };
    let t8 = match kdt.checked_add(&k) {
        Ok(v) => v,
        Err(e) => {
            return Err(e);
        },
    };
    let xsum = match x0.checked_add(x1) {
        Ok(v) => v,
        Err(e) => {
            return Err(e);
        },
    };
    let t9 = match t8.checked_mul(&xsum) {
        Ok(v) => v,
        Err(e) => {
            return Err(e);
        },
    };
    let nk = match k.checked_mul(&n2) {
        Ok(v) => v,
        Err(e) => {
            return Err(e);
        },
    };
    let t10 = match kdt.checked_add(&nk) {
        Ok(v) => v,
        Err(e) => {
            return Err(e);
        },
    };
    let t11 = match t10.checked_mul(d) {
        Ok(v) => v,
        Err(e) => {
            return Err(e);
        },
    };
    let t12 = match t9.checked_sub(&t11) {
        Ok(v) => v,
        Err(e) => {
            return Err(e);
        },
    };
    let dn = match d.checked_div(&n2) {
        Ok(v) => v,
        Err(e) => {
            return Err(e);
        },
    };
    t12.checked_sub(&dn)
}

/// The derivative `df/dx_i`; see [`df_dx_spec`]. `xr` is the reserve on the
/// other side.
#[verifier::rlimit(60)]
pub fn df_dx(
    d: &Dec256,
    x0: &SignedDecimal256,
    x1: &SignedDecimal256,
    xr: &SignedDecimal256,
    a: &Dec256,
    gamma: &Dec256,
) -> (r: Result<SignedDecimal256, MathError>)
    ensures
        match r {
            Ok(v) => df_dx_spec(d@, x0@, x1@, xr@, a@, gamma@) == Ok::<SdVal, MathError>(v@),
            Err(e) => df_dx_spec(d@, x0@, x1@, xr@, a@, gamma@) == Err::<SdVal, MathError>(e),
        },
{
    let n4 = SignedDecimal256::from_dec256(Dec256::raw(N_POW2));
    let pad_sd = SignedDecimal256::from_dec256(Dec256::raw(PADDING));
    let g_sd = SignedDecimal256::from_dec256(*gamma);
    let a_sd = SignedDecimal256::from_dec256(*a);
    let one_sd = SignedDecimal256::from_dec256(Dec256::one());
    let d_sd = SignedDecimal256::from_dec256(*d);
    let d2 = match d.checked_pow(2) {
        Ok(v) => SignedDecimal256::from_dec256(v),
        Err(e) => {
            return Err(e);
        },
    };
    let t0 = match x0.checked_mul(x1) {
        Ok(v) => v,
        Err(e) => {
            return Err(e);
        },
    };
    let t1 = match t0.checked_mul(&n4) {
        Ok(v) => v,
        Err(e) => {
            return Err(e);
        },
    };
    let k0 = match t1.checked_div(&d2) {
        Ok(v) => v,
        Err(e) => {
            return Err(e);
        },
    };
    let g1 = match g_sd.checked_add(&one_sd) {
        Ok(v) => v,
        Err(e) => {
            return Err(e);
        },
    };
    let gk = match g1.checked_sub(&k0) {
        Ok(v) => v,
        Err(e) => {
            return Err(e);
        },
    };
    let gk2 = match gk.pow(2) {
        Ok(v) => v,
        Err(e) => {
            return Err(e);
        },
    };
    let g2 = match g_sd.pow(2) {
        Ok(v) => v,
        Err(e) => {
            return Err(e);
        },
    };
    let ag2 = match a_sd.checked_mul(&g2) {
        Ok(v) => v,
        Err(e) => {
            return Err(e);
        },
    };
    let t2 = match k0.checked_mul(&ag2) {
        Ok(v) => v,
        Err(e) => {
            return Err(e);
        },
    };
    let k = match t2.checked_div(&gk2) {
        Ok(v) => v,
        Err(e) => {
            return Err(e);
        },
    };
    let k0x = match xr.checked_mul(&n4) {
        Ok(v) => v,
        Err(e) => {
            return Err(e);
        },
    };
    let t3 = match k0x.checked_mul(&ag2) {
        Ok(v) => v,
        Err(e) => {
            return Err(e);
        },
    };
    let g1k = match k0.checked_add(&g1) {
        Ok(v) => v,
        Err(e) => {
            return Err(e);
        },
    };
    let t4 = match t3.checked_mul(&g1k) {
        Ok(v) => v,
        Err(e) => {
            return Err(e);
        },
    };
    let num = match t4.checked_mul(&pad_sd) {
        Ok(v) => v,
        Err(e) => {
            return Err(e);
        },
    };
    let pd2 = match pad_sd.checked_mul(&d2) {
        Ok(v) => v,
        Err(e) => {
            return Err(e);
        },
    };
    let t5 = match gk.checked_mul(&pd2) {
        Ok(v) => v,
        Err(e) => {
            return Err(e);
        },
    };
    let den = match t5.checked_mul(&gk2) {
        Ok(v) => v,
        Err(e) => {
            return Err(e);
        },
    };
    let kx = match num.checked_div(&den) {
        Ok(v) => v,
        Err(e) => {
            return Err(e);
        },
    };
    let xsum = match x0.checked_add(x1) {
        Ok(v) => v,
        Err(e) => {
            return Err(e);
        },
    };
    let t6 = match kx.checked_mul(&xsum) {
        Ok(v) => v,
        Err(e) => {
            return Err(e);
        },
    };
    let t7 = match t6.checked_add(&k) {
        Ok(v) => v,
        Err(e) => {
            return Err(e);
        },
    };
    let t8 = match t7.checked_mul(&d_sd) {
        Ok(v) => v,
        Err(e) => {
            return Err(e);
        },
    };
    let t9 = match t8.checked_add(xr) {
        Ok(v) => v,
        Err(e) => {
            return Err(e);
        },
    };
    let t10 = match kx.checked_mul(&d2) {
        Ok(v) => v,
        Err(e) => {
            return Err(e);
        },
    };
    t9.checked_sub(&t10)
}

/// One Newton step for the invariant: `D - f(D)/f'(D)`, in the solver's
/// operation order.
pub open spec fn newton_step_d(d_prev: SdVal, x0: SdVal, x1: SdVal, a: int, gamma: int) -> Result<
    SdVal,
    MathError,
> {
    match f_spec(d_prev, x0, x1, a, gamma) {
        Err(e) => Err(e),
        Ok(fv) => match df_dd_spec(d_prev, x0, x1, a, gamma) {
            Err(e) => Err(e),
            Ok(dfv) => match sd_div(fv, dfv) {
                Err(e) => Err(e),
                Ok(q) => sd_sub(d_prev, q),
            },
        },
    }
}

/// The invariant iteration: step from `d_prev`; if the step moved by at
/// most [`TOL`], the result is the new iterate converted to an unsigned
/// value, otherwise iterate on with one unit of fuel less. Exhausted fuel
/// is the non-convergence error.
pub open spec fn newton_d_loop(
    d_prev: SdVal,
    x0: SdVal,
    x1: SdVal,
    a: int,
    gamma: int,
    fuel: nat,
) -> Result<int, MathError>
    decreases fuel,
{
    if fuel == 0 {
        Err(MathError::NewtonDNotConverging)
    } else {
        match newton_step_d(d_prev, x0, x1, a, gamma) {
            Err(e) => Err(e),
            Ok(d) => match sd_diff(d, d_prev) {
                Err(e) => Err(e),
                Ok(delta) => if delta <= TOL as int {
                    sd_try_into(d)
                } else {
                    newton_d_loop(d, x0, x1, a, gamma, (fuel - 1) as nat)
                },
            },
        }
    }
}

/// The invariant solver: seeded at `N * sqrt(x0 * x1)`, then the Newton
/// iteration for at most [`MAX_ITER`] steps.
pub open spec fn newton_d_spec(x0: int, x1: int, a: int, gamma: int) -> Result<int, MathError> {
    match geometric_mean_spec(x0, x1) {
        Err(e) => Err(e),
        Ok(gm) => if crate::dec256::dmul(N as int, gm) < crate::u256::lim256() {
            newton_d_loop(
                sd_of(crate::dec256::dmul(N as int, gm)),
                sd_of(x0),
                sd_of(x1),
                a,
                gamma,
                MAX_ITER as nat,
            )
        } else {
            Err(MathError::Overflow)
        },
    }
}

/// Newton solver for the invariant `D` of the reserves `x`; the result is
/// pinned to [`newton_d_spec`].
pub fn newton_d(x: &[Dec256], a: &Dec256, gamma: &Dec256) -> (r: Result<Dec256, MathError>)
    requires
        x@.len() == 2,
    ensures
        match r {
            Ok(v) => newton_d_spec(x@[0]@, x@[1]@, a@, gamma@) == Ok::<int, MathError>(v@),
            Err(e) => newton_d_spec(x@[0]@, x@[1]@, a@, gamma@) == Err::<int, MathError>(e),
        },
{
    let gm = match geometric_mean(x) {
        Ok(v) => v,
        Err(e) => {
            return Err(e);
        },
    };
    let seed = match Dec256::raw(N).checked_mul(&gm) {
        Some(v) => v,
        None => {
            return Err(MathError::Overflow);
        },
    };
    let mut d_prev = SignedDecimal256::from_dec256(seed);
    let x0 = SignedDecimal256::from_dec256(x[0]);
    let x1 = SignedDecimal256::from_dec256(x[1]);
    let tol = Dec256::raw(TOL);
    let mut i: usize = 0;
    while i < MAX_ITER
        invariant
            i <= MAX_ITER,
            x0@ == sd_of(x@[0]@),
            x1@ == sd_of(x@[1]@),
            tol@ == TOL as int,
            newton_d_loop(d_prev@, x0@, x1@, a@, gamma@, (MAX_ITER - i) as nat) == newton_d_spec(
                x@[0]@,
                x@[1]@,
                a@,
                gamma@,
            ),
        decreases MAX_ITER - i,
    {
        let fv = match f(&d_prev, &x0, &x1, a, gamma) {
            Ok(v) => v,
            Err(e) => {
                return Err(e);
            },
        };
        let dfv = match df_dd(&d_prev, &x0, &x1, a, gamma) {
            Ok(v) => v,
            Err(e) => {
                return Err(e);
            },
        };
        let q = match fv.checked_div(&dfv) {
            Ok(v) => v,
            Err(e) => {
                return Err(e);
            },
        };
        let d = match d_prev.checked_sub(&q) {
            Ok(v) => v,
            Err(e) => {
                return Err(e);
            },
        };
        let delta = match d.diff(&d_prev) {
            Ok(v) => v,
            Err(e) => {
                return Err(e);
            },
        };
        if delta.le(&tol) {
            return d.try_into_dec256();
        }
        d_prev = d;
        i = i + 1;
    }
    Err(MathError::NewtonDNotConverging)
}

/// One Newton step for the missing reserve: `x_j - f(D, x)/df_dx(D, x, j)`.
/// `xo` is the fixed reserve on the other side.
pub open spec fn newton_step_y(
    xi_1: SdVal,
    dv: int,
    xo: SdVal,
    j: int,
    a: int,
    gamma: int,
) -> Result<SdVal, MathError> {
    let x0 = if j == 0 {
        xi_1
    } else {
        xo
    };
    let x1 = if j == 0 {
        xo
    } else {
        xi_1
    };
    match f_spec(sd_of(dv), x0, x1, a, gamma) {
        Err(e) => Err(e),
        Ok(fv) => match df_dx_spec(dv, x0, x1, xo, a, gamma) {
            Err(e) => Err(e),
            Ok(dfv) => match sd_div(fv, dfv) {
                Err(e) => Err(e),
                Ok(q) => sd_sub(xi_1, q),
            },
        },
    }
}

/// The missing-reserve iteration, with the same convergence rule and fuel
/// accounting as [`newton_d_loop`].
pub open spec fn newton_y_loop(
    xi_1: SdVal,
    dv: int,
    xo: SdVal,
    j: int,
    a: int,
    gamma: int,
    fuel: nat,
) -> Result<int, MathError>
    decreases fuel,
{
    if fuel == 0 {
        Err(MathError::NewtonYNotConverging)
    } else {
        match newton_step_y(xi_1, dv, xo, j, a, gamma) {
            Err(e) => Err(e),
            Ok(xi) => match sd_diff(xi, xi_1) {
                Err(e) => Err(e),
                Ok(delta) => if delta <= TOL as int {
                    sd_try_into(xi)
                } else {
                    newton_y_loop(xi, dv, xo, j, a, gamma, (fuel - 1) as nat)
                },
            },
        }
    }
}

/// The missing-reserve solver: seeded at `D^2 / (N^2 * x_other)`, then the
/// Newton iteration for at most [`MAX_ITER`] steps.
pub open spec fn newton_y_spec(x0v: int, x1v: int, a: int, gamma: int, dv: int, j: int) -> Result<
    int,
    MathError,
> {
    let xo = if j == 0 {
        sd_of(x1v)
    } else {
        sd_of(x0v)
    };
    match dpow(dv, 2) {
        Err(e) => Err(e),
        Ok(d2) => match sd_mul(xo, sd_of(N_POW2 as int)) {
            Err(e) => Err(e),
            Ok(den) => match sd_div(sd_of(d2), den) {
                Err(e) => Err(e),
                Ok(seed) => newton_y_loop(seed, dv, xo, j, a, gamma, MAX_ITER as nat),
            },
        },
    }
}

/// Newton solver for the reserve at index `j` given the invariant `d` and
/// the other reserve; the result is pinned to [`newton_y_spec`].
pub fn newton_y(xs: &[Dec256], a: &Dec256, gamma: &Dec256, d: &Dec256, j: usize) -> (r: Result<
    Dec256,
    MathError,
>)
    requires
        xs@.len() == 2,
        j < 2,
    ensures
        match r {
            Ok(v) => newton_y_spec(xs@[0]@, xs@[1]@, a@, gamma@, d@, j as int) == Ok::<
                int,
                MathError,
            >(v@),
            Err(e) => newton_y_spec(xs@[0]@, xs@[1]@, a@, gamma@, d@, j as int) == Err::<
                int,
                MathError,
            >(e),
        },
{
    let n4 = SignedDecimal256::from_dec256(Dec256::raw(N_POW2));
    let xo = if j == 0 {
        SignedDecimal256::from_dec256(xs[1])
    } else {
        SignedDecimal256::from_dec256(xs[0])
    };
    let d2 = match d.checked_pow(2) {
        Ok(v) => v,
        Err(e) => {
            return Err(e);
        },
    };
    let den = match xo.checked_mul(&n4) {
        Ok(v) => v,
        Err(e) => {
            return Err(e);
        },
    };
    let mut xi_1 = match SignedDecimal256::from_dec256(d2).checked_div(&den) {
        Ok(v) => v,
        Err(e) => {
            return Err(e);
        },
    };
    let tol = Dec256::raw(TOL);
    let mut i: usize = 0;
    while i < MAX_ITER
        invariant
            i <= MAX_ITER,
            j < 2,
            xo@ == if j == 0 {
                sd_of(xs@[1]@)
            } else {
                sd_of(xs@[0]@)
            },
            tol@ == TOL as int,
            newton_y_loop(xi_1@, d@, xo@, j as int, a@, gamma@, (MAX_ITER - i) as nat)
                == newton_y_spec(xs@[0]@, xs@[1]@, a@, gamma@, d@, j as int),
        decreases MAX_ITER - i,
    {
        let x0 = if j == 0 {
            xi_1
        } else {
            xo
        };
        let x1 = if j == 0 {
            xo
        } else {
            xi_1
        };
        let d_sd = SignedDecimal256::from_dec256(*d);
        let fv = match f(&d_sd, &x0, &x1, a, gamma) {
            Ok(v) => v,
            Err(e) => {
                return Err(e);
            },
        };
        let dfv = match df_dx(d, &x0, &x1, &xo, a, gamma) {
            Ok(v) => v,
            Err(e) => {
                return Err(e);
            },
        };
        let q = match fv.checked_div(&dfv) {
            Ok(v) => v,
            Err(e) => {
                return Err(e);
            },
        };
        let xi = match xi_1.checked_sub(&q) {
            Ok(v) => v,
            Err(e) => {
                return Err(e);
            },
        };
        let delta = match xi.diff(&xi_1) {
            Ok(v) => v,
            Err(e) => {
                return Err(e);
            },
        };
        if delta.le(&tol) {
            return xi.try_into_dec256();
        }
        xi_1 = xi;
        i = i + 1;
    }
    Err(MathError::NewtonYNotConverging)
}

} // verus!
