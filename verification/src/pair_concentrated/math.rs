use vstd::prelude::*;

use crate::dec256::{dmul, dpow, Dec256};
use crate::error::MathError;
use crate::pair_concentrated::consts::{MAX_ITER, N, N_POW2, TOL};
use crate::pair_concentrated::math_decimal::{
    geometric_mean_spec, newton_d, newton_d_loop, newton_d_spec, newton_step_d, newton_step_y,
    newton_y, newton_y_loop, newton_y_spec,
};
use crate::pair_concentrated::signed_decimal::{sd_diff, sd_div, sd_mul, sd_of, sd_try_into, SdVal};
use crate::pair_concentrated::state::AmpGamma;
use crate::u256::lim256;

verus! {

/// Calculate the `D` invariant from the pool volumes.
///
/// * `xs` - internal representation of pool volumes.
/// * `amp_gamma` - current amplification and gamma parameters.
///
/// The result is pinned to [`newton_d_spec`]; see also
/// [`lemma_calc_d_converged`] for the convergence property of a successful
/// result.
pub fn calc_d(xs: &[Dec256], amp_gamma: &AmpGamma) -> (r: Result<Dec256, MathError>)
    requires
        xs@.len() == 2,
    ensures
        match r {
            Ok(v) => newton_d_spec(xs@[0]@, xs@[1]@, amp_gamma.amp@, amp_gamma.gamma@) == Ok::<
                int,
                MathError,
            >(v@),
            Err(e) => newton_d_spec(xs@[0]@, xs@[1]@, amp_gamma.amp@, amp_gamma.gamma@) == Err::<
                int,
                MathError,
            >(e),
        },
{
    let a = amp_gamma.amp.to_dec256();
    let gamma = amp_gamma.gamma.to_dec256();
    newton_d(xs, &a, &gamma)
}

/// Calculate the unknown pool volume at index `ask_ind` from the known
/// other volume and the invariant `d`.
///
/// The result is pinned to [`newton_y_spec`]; see also
/// [`lemma_calc_y_converged`].
pub fn calc_y(xs: &[Dec256], d: Dec256, amp_gamma: &AmpGamma, ask_ind: usize) -> (r: Result<
    Dec256,
    MathError,
>)
    requires
        xs@.len() == 2,
        ask_ind < 2,
    ensures
        match r {
            Ok(v) => newton_y_spec(
                xs@[0]@,
                xs@[1]@,
                amp_gamma.amp@,
                amp_gamma.gamma@,
                d@,
                ask_ind as int,
            ) == Ok::<int, MathError>(v@),
            Err(e) => newton_y_spec(
                xs@[0]@,
                xs@[1]@,
                amp_gamma.amp@,
                amp_gamma.gamma@,
                d@,
                ask_ind as int,
            ) == Err::<int, MathError>(e),
        },
{
    let a = amp_gamma.amp.to_dec256();
    let gamma = amp_gamma.gamma.to_dec256();
    newton_y(xs, &a, &gamma, &d, ask_ind)
}

/// Witness that the magnitude `dm` is a settled invariant iterate: one
/// Newton step off `prev` lands on it, the step's correction `|f/f'|` is at
/// most [`TOL`], and it is not strictly negative.
pub open spec fn d_step_converged(
    prev: SdVal,
    x0: int,
    x1: int,
    a: int,
    gamma: int,
    dm: int,
) -> bool {
    match newton_step_d(prev, sd_of(x0), sd_of(x1), a, gamma) {
        Ok(d) => sd_diff(d, prev) matches Ok(delta) && delta <= TOL as int && sd_try_into(d)
            == Ok::<int, MathError>(dm),
        Err(_) => false,
    }
}

/// Some iterate settles on `dm`; see [`d_step_converged`].
pub open spec fn d_converged(x0: int, x1: int, a: int, gamma: int, dm: int) -> bool {
    exists|prev: SdVal| d_step_converged(prev, x0, x1, a, gamma, dm)
}

proof fn lemma_newton_d_loop_residual(
    d_prev: SdVal,
    x0: int,
    x1: int,
    a: int,
    gamma: int,
    fuel: nat,
)
    ensures
        newton_d_loop(d_prev, sd_of(x0), sd_of(x1), a, gamma, fuel) matches Ok(dm) ==> d_converged(
            x0,
            x1,
            a,
            gamma,
            dm,
        ),
    decreases fuel,
{
    if fuel > 0 {
        match newton_step_d(d_prev, sd_of(x0), sd_of(x1), a, gamma) {
            Ok(d) => match sd_diff(d, d_prev) {
                Ok(delta) => {
                    if delta <= TOL as int {
                        match sd_try_into(d) {
                            Ok(dm) => {
                                assert(d_step_converged(d_prev, x0, x1, a, gamma, dm));
                            },
                            Err(_) => {},
                        }
                    } else {
                        lemma_newton_d_loop_residual(d, x0, x1, a, gamma, (fuel - 1) as nat);
                    }
                },
                Err(_) => {},
            },
            Err(_) => {},
        }
    }
}

/// Every successful run of the invariant solver ends on a settled Newton
/// iterate: the returned value `dm` is reached by one step from some
/// previous iterate, and that step's correction `|f/f'|` (as the solver
/// rounds it) is at most [`TOL`]. This is the computational form of the
/// residual bound `|f(D)| <= TOL * |f'(D)|` at the returned `D`.
pub proof fn lemma_calc_d_converged(x0: int, x1: int, a: int, gamma: int)
    ensures
        newton_d_spec(x0, x1, a, gamma) matches Ok(dm) ==> d_converged(x0, x1, a, gamma, dm),
{
    match geometric_mean_spec(x0, x1) {
        Ok(gm) => {
            if dmul(N as int, gm) < lim256() {
                lemma_newton_d_loop_residual(
                    sd_of(dmul(N as int, gm)),
                    x0,
                    x1,
                    a,
                    gamma,
                    MAX_ITER as nat,
                );
            }
        },
        Err(_) => {},
    }
}

/// Witness that the magnitude `ym` is a settled reserve iterate at index
/// `j`; the counterpart of [`d_step_converged`] for the reserve solver.
pub open spec fn y_step_converged(
    prev: SdVal,
    dv: int,
    xo: SdVal,
    j: int,
    a: int,
    gamma: int,
    ym: int,
) -> bool {
    match newton_step_y(prev, dv, xo, j, a, gamma) {
        Ok(xi) => sd_diff(xi, prev) matches Ok(delta) && delta <= TOL as int && sd_try_into(xi)
            == Ok::<int, MathError>(ym),
        Err(_) => false,
    }
}

/// Some iterate settles on `ym`; see [`y_step_converged`].
pub open spec fn y_converged(dv: int, xo: SdVal, j: int, a: int, gamma: int, ym: int) -> bool {
    exists|prev: SdVal| y_step_converged(prev, dv, xo, j, a, gamma, ym)
}

proof fn lemma_newton_y_loop_residual(
    xi_1: SdVal,
    dv: int,
    xo: SdVal,
    j: int,
    a: int,
    gamma: int,
    fuel: nat,
)
    ensures
        newton_y_loop(xi_1, dv, xo, j, a, gamma, fuel) matches Ok(ym) ==> y_converged(
            dv,
            xo,
            j,
            a,
            gamma,
            ym,
        ),
    decreases fuel,
{
    if fuel > 0 {
        match newton_step_y(xi_1, dv, xo, j, a, gamma) {
            Ok(xi) => match sd_diff(xi, xi_1) {
                Ok(delta) => {
                    if delta <= TOL as int {
                        match sd_try_into(xi) {
                            Ok(ym) => {
                                assert(y_step_converged(xi_1, dv, xo, j, a, gamma, ym));
                            },
                            Err(_) => {},
                        }
                    } else {
                        lemma_newton_y_loop_residual(xi, dv, xo, j, a, gamma, (fuel - 1) as nat);
                    }
                },
                Err(_) => {},
            },
            Err(_) => {},
        }
    }
}

/// Every successful run of the reserve solver ends on a settled Newton
/// iterate, with the step's correction at most [`TOL`]; the counterpart of
/// [`lemma_calc_d_converged`].
pub proof fn lemma_calc_y_converged(x0: int, x1: int, a: int, gamma: int, dv: int, j: int)
    ensures
        newton_y_spec(x0, x1, a, gamma, dv, j) matches Ok(ym) ==> y_converged(
            dv,
            if j == 0 {
                sd_of(x1)
            } else {
                sd_of(x0)
            },
            j,
            a,
            gamma,
            ym,
        ),
{
    let xo = if j == 0 {
        sd_of(x1)
    } else {
        sd_of(x0)
    };
    match dpow(dv, 2) {
        Ok(d2) => match sd_mul(xo, sd_of(N_POW2 as int)) {
            Ok(den) => match sd_div(sd_of(d2), den) {
                Ok(seed) => {
                    lemma_newton_y_loop_residual(seed, dv, xo, j, a, gamma, MAX_ITER as nat);
                },
                Err(_) => {},
            },
            Err(_) => {},
        },
        Err(_) => {},
    }
}

} // verus!
