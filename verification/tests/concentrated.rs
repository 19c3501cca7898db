use amm_sim::dec128::Dec128;
use amm_sim::dec256::Dec256;
use amm_sim::pair_concentrated::math::{calc_d, calc_y};
use amm_sim::pair_concentrated::state::{fee, get_amp_gamma, AmpGamma};
use amm_sim::pair_concentrated::swap::simulate;

const UNIT: u128 = 1_000_000_000_000_000_000;

/// A decimal input holding the native integer amount `n`.
fn native(n: u128) -> Dec256 {
    Dec256::raw(n * UNIT)
}

fn params() -> AmpGamma {
    AmpGamma { amp: Dec128::raw(10 * UNIT), gamma: Dec128::raw(145_000_000_000_000) }
}

#[test]
fn ramp_midpoint_blends_the_parameters() {
    let g = Dec128::raw(UNIT / 10_000);
    let r = get_amp_gamma(500, 0, Dec128::raw(10 * UNIT), g, 1000, Dec128::raw(20 * UNIT), g)
        .unwrap();
    assert_eq!(r.amp, Dec128::raw(15 * UNIT));
    assert_eq!(r.gamma, g);
}

#[test]
fn ramp_is_monotone_and_clamps() {
    let g = Dec128::raw(UNIT / 10_000);
    let ia = Dec128::raw(10 * UNIT);
    let fa = Dec128::raw(20 * UNIT);
    let quarter = get_amp_gamma(250, 0, ia, g, 1000, fa, g).unwrap();
    let half = get_amp_gamma(500, 0, ia, g, 1000, fa, g).unwrap();
    let late = get_amp_gamma(2000, 0, ia, g, 1000, fa, g).unwrap();
    assert_eq!(quarter.amp, Dec128::raw(12 * UNIT + UNIT / 2));
    assert!(quarter.amp.atomics <= half.amp.atomics);
    assert!(half.amp.atomics <= late.amp.atomics);
    assert_eq!(late.amp, fa);
}

#[test]
fn invariant_of_a_balanced_pool_is_near_the_total() {
    let xs = [native(1000), native(1000)];
    let d = calc_d(&xs, &params()).unwrap();
    assert!(Dec256::raw(1999 * UNIT).lt(&d));
    assert!(d.lt(&Dec256::raw(2001 * UNIT)));
}

#[test]
fn reserve_solver_recovers_a_known_reserve() {
    let xs = [native(1000), native(1000)];
    let ag = params();
    let d = calc_d(&xs, &ag).unwrap();
    let y = calc_y(&xs, d, &ag, 1).unwrap();
    // Solving for the second reserve of the same pool lands near its
    // actual value.
    assert!(Dec256::raw(999 * UNIT).lt(&y));
    assert!(y.lt(&Dec256::raw(1001 * UNIT)));
}

#[test]
fn fee_is_the_mid_fee_on_a_balanced_pool() {
    let xs = [native(1000), native(1000)];
    let mid = Dec256::raw(UNIT / 1000);
    let out = Dec256::raw(UNIT / 100);
    let r = fee(&xs, &Dec256::raw(UNIT / 100), &mid, &out).unwrap();
    assert_eq!(r, mid);
}

#[test]
fn fee_stays_between_the_bounds_off_balance() {
    let mid = Dec256::raw(UNIT / 1000);
    let out = Dec256::raw(UNIT / 100);
    let gamma = Dec256::raw(UNIT / 100);
    let r = fee(&[native(1000), native(250)], &gamma, &mid, &out).unwrap();
    assert!(mid.le(&r));
    assert!(r.le(&out));
    // With a small fee gamma an extreme imbalance pushes the coefficient
    // under the tolerance; it clamps to zero and the fee lands on the out
    // fee exactly.
    let small_gamma = Dec256::raw(UNIT / 2000);
    let far = fee(&[native(1_000_000_000), native(1)], &small_gamma, &mid, &out).unwrap();
    assert_eq!(far, out);
}

#[test]
fn swap_balanced_pool_without_ramp() {
    // 1000/1000 whole tokens at 6 fractional digits, offer 10 whole,
    // price scale and oracle price 1, constant curve parameters.
    let ag = params();
    let r = simulate(
        native(10_000_000),
        6,
        1,
        6,
        &[native(1_000_000_000), native(1_000_000_000)],
        Dec256::raw(UNIT / 2),
        Dec256::raw(UNIT),
        Dec256::raw(UNIT),
        Dec256::raw(UNIT / 100),
        Dec256::raw(UNIT / 1000),
        Dec256::raw(UNIT / 100),
        100,
        0,
        ag.amp,
        ag.gamma,
        0,
        ag.amp,
        ag.gamma,
    )
    .unwrap();
    assert!(r.return_amount > 0);
    assert!(r.return_amount < 10_000_000);
    assert!(r.commission_amount > 0);
    // spread_amount is a u128, so non-negativity is the saturation working
    assert!(r.return_amount + r.commission_amount <= 10_000_000);
}

#[test]
fn concentrated_swap_is_monotone_in_the_offer() {
    let ag = params();
    let run = |offer: u128| {
        simulate(
            native(offer),
            6,
            1,
            6,
            &[native(1_000_000_000), native(1_000_000_000)],
            Dec256::raw(UNIT / 2),
            Dec256::raw(UNIT),
            Dec256::raw(UNIT),
            Dec256::raw(UNIT / 100),
            Dec256::raw(UNIT / 1000),
            Dec256::raw(UNIT / 100),
            100,
            0,
            ag.amp,
            ag.gamma,
            0,
            ag.amp,
            ag.gamma,
        )
        .unwrap()
        .return_amount
    };
    let small = run(10_000_000);
    let large = run(20_000_000);
    assert!(small <= large);
}

#[test]
fn swap_rotates_by_the_price_scale() {
    // With price scale 2 the second asset is worth twice the first, so
    // offering the first asset for the second returns about half.
    let ag = params();
    let r = simulate(
        native(10_000_000),
        6,
        1,
        6,
        &[native(1_000_000_000), native(500_000_000)],
        Dec256::raw(UNIT / 2),
        Dec256::raw(2 * UNIT),
        Dec256::raw(2 * UNIT),
        Dec256::raw(UNIT / 100),
        Dec256::raw(UNIT / 1000),
        Dec256::raw(UNIT / 100),
        100,
        0,
        ag.amp,
        ag.gamma,
        0,
        ag.amp,
        ag.gamma,
    )
    .unwrap();
    assert!(r.return_amount > 4_000_000);
    assert!(r.return_amount < 5_100_000);
}
