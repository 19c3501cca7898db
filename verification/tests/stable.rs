use amm_sim::dec128::Dec128;
use amm_sim::dec256::Dec256;
use amm_sim::error::MathError;
use amm_sim::pair_stable::error::ContractError;
use amm_sim::pair_stable::state::{compute_current_amp, greatest_precision};
use amm_sim::pair_stable::swap::{check_swap_parameters, CheckError};
use amm_sim::pair_stable::{provide, swap, withdraw};

const UNIT: u128 = 1_000_000_000_000_000_000;

/// A decimal input holding the native integer amount `n`.
fn native(n: u128) -> Dec256 {
    Dec256::raw(n * UNIT)
}

#[test]
fn swap_with_an_empty_reserve_short_circuits() {
    // One empty pool side: the preview answers all zeros, not an error.
    let r = swap::simulate(
        native(10),
        6,
        1,
        6,
        &[native(0), native(1000)],
        Dec128::raw(0),
        0,
        0,
        100,
        0,
        100,
    )
    .unwrap();
    assert_eq!(r.return_amount, 0);
    assert_eq!(r.spread_amount, 0);
    assert_eq!(r.commission_amount, 0);
}

#[test]
fn swap_with_a_zero_offer_short_circuits() {
    let r = swap::simulate(
        native(0),
        6,
        1,
        6,
        &[native(1_000_000_000), native(1_000_000_000)],
        Dec128::raw(UNIT / 1000),
        0,
        0,
        100,
        0,
        100,
    )
    .unwrap();
    assert_eq!(r.return_amount, 0);
    assert_eq!(r.spread_amount, 0);
    assert_eq!(r.commission_amount, 0);
}

#[test]
fn swap_near_parity_on_a_balanced_pool() {
    // 1000/1000 whole tokens at 6 fractional digits, offer 10 whole, amp 100.
    let r = swap::simulate(
        native(10_000_000),
        6,
        1,
        6,
        &[native(1_000_000_000), native(1_000_000_000)],
        Dec128::raw(0),
        0,
        0,
        100,
        0,
        100,
    )
    .unwrap();
    assert!(r.return_amount > 0);
    assert!(r.return_amount <= 10_000_000);
    assert_eq!(r.commission_amount, 0);
    // spread is the one-to-one shortfall
    assert_eq!(r.spread_amount, 10_000_000 - r.return_amount);
}

#[test]
fn swap_commission_comes_out_of_the_return() {
    let no_fee = swap::simulate(
        native(10_000_000),
        6,
        1,
        6,
        &[native(1_000_000_000), native(1_000_000_000)],
        Dec128::raw(0),
        0,
        0,
        100,
        0,
        100,
    )
    .unwrap();
    let with_fee = swap::simulate(
        native(10_000_000),
        6,
        1,
        6,
        &[native(1_000_000_000), native(1_000_000_000)],
        Dec128::raw(UNIT / 100),
        0,
        0,
        100,
        0,
        100,
    )
    .unwrap();
    assert_eq!(
        with_fee.return_amount + with_fee.commission_amount,
        no_fee.return_amount
    );
    assert!(with_fee.commission_amount > 0);
}

#[test]
fn amp_ramp_interpolates_and_clamps() {
    // Midpoint of an upward ramp from 10 to 20.
    assert_eq!(compute_current_amp(500, 0, 10, 1000, 20), Ok(15));
    // Monotone along the way, clamped at the end.
    assert_eq!(compute_current_amp(250, 0, 10, 1000, 20), Ok(12));
    assert_eq!(compute_current_amp(750, 0, 10, 1000, 20), Ok(17));
    assert_eq!(compute_current_amp(1000, 0, 10, 1000, 20), Ok(20));
    assert_eq!(compute_current_amp(5000, 0, 10, 1000, 20), Ok(20));
    // Downward ramps interpolate too.
    assert_eq!(compute_current_amp(500, 0, 20, 1000, 10), Ok(15));
    // A zero-width window observed before its end cannot be interpolated.
    assert_eq!(
        compute_current_amp(5, 10, 10, 10, 20),
        Err(MathError::DivideByZero)
    );
}

#[test]
fn check_swap_parameters_flags_empty_and_zero() {
    assert_eq!(
        check_swap_parameters(&[Dec256::zero(), native(5)], native(1)),
        Err(CheckError::EmptyAsset)
    );
    assert_eq!(
        check_swap_parameters(&[native(4), native(5)], Dec256::zero()),
        Err(CheckError::ZeroSwapAmount)
    );
    assert_eq!(
        check_swap_parameters(&[native(4), native(5)], native(1)),
        Ok(())
    );
}

#[test]
fn provide_initial_mints_the_invariant_less_the_burn() {
    // 10000/10000 native units at 6 digits: D = 0.02, read back at the
    // greatest precision 6 that is 20000 units; minus the burnt 1000.
    let r = provide::simulate(
        &[native(10_000), native(10_000)],
        &[native(0), native(0)],
        &[6, 6],
        0,
        0,
        0,
        100,
        0,
        100,
    )
    .unwrap();
    assert_eq!(r.share_amount, 19_000);
}

#[test]
fn stable_provide_zero_deposit_is_rejected() {
    assert_eq!(
        provide::simulate(
            &[native(0), native(10_000)],
            &[native(0), native(0)],
            &[6, 6],
            0,
            0,
            0,
            100,
            0,
            100,
        ),
        Err(ContractError::InvalidZeroAmount)
    );
}

#[test]
fn provide_that_mints_nothing_is_rejected() {
    // A dust deposit against a deep pool and a tiny supply rounds to zero
    // shares.
    assert_eq!(
        provide::simulate(
            &[native(1), native(1)],
            &[native(1_000_000_000), native(1_000_000_000)],
            &[6, 6],
            1,
            0,
            0,
            100,
            0,
            100,
        ),
        Err(ContractError::LiquidityAmountTooSmall)
    );
}

#[test]
fn stable_withdraw_is_proportional() {
    let r = withdraw::simulate(500, &[1000, 2000], 1000).unwrap();
    assert_eq!(r.returned_amounts, vec![500, 1000]);
}

#[test]
fn greatest_precision_takes_the_maximum() {
    assert_eq!(greatest_precision(&[6, 18]), 18);
    assert_eq!(greatest_precision(&[9, 3]), 9);
    assert_eq!(greatest_precision(&[]), 0);
}
