use amm_sim::dec128::Dec128;
use amm_sim::error::MathError;
use amm_sim::pair_xyk::error::ContractError;
use amm_sim::pair_xyk::{provide, simulate, withdraw};

const UNIT: u128 = 1_000_000_000_000_000_000;

#[test]
fn swap_balanced_pool() {
    // Balanced 1000/1000 pool, offer 100, flat fee 0.3%.
    let fee = Dec128::raw(3 * UNIT / 1000);
    let r = simulate(100, 1, &[1000, 1000], fee).unwrap();
    // Gross output floor(1000 - 10^6/1100) = 90; commission floor(0.003*90) = 0.
    assert_eq!(r.return_amount, 90);
    assert_eq!(r.commission_amount, 0);
    assert_eq!(r.spread_amount, 10);
    // Output, spread and commission account for the offer up to rounding.
    let total = r.return_amount + r.spread_amount + r.commission_amount;
    assert!(99 <= total && total <= 100);
}

#[test]
fn swap_is_monotone_in_the_offer() {
    let fee = Dec128::raw(3 * UNIT / 1000);
    let small = simulate(100, 1, &[1000, 1000], fee).unwrap();
    let large = simulate(200, 1, &[1000, 1000], fee).unwrap();
    assert!(small.return_amount <= large.return_amount);
}

#[test]
fn swap_zero_offer_returns_all_zero() {
    let fee = Dec128::raw(3 * UNIT / 1000);
    let r = simulate(0, 1, &[1000, 1000], fee).unwrap();
    assert_eq!(r.return_amount, 0);
    assert_eq!(r.spread_amount, 0);
    assert_eq!(r.commission_amount, 0);
}

#[test]
fn swap_respects_the_ask_index() {
    let fee = Dec128::raw(0);
    let a = simulate(100, 0, &[5000, 1000], fee).unwrap();
    let b = simulate(100, 1, &[1000, 5000], fee).unwrap();
    assert_eq!(a.return_amount, b.return_amount);
    // Asking for the scarcer asset of an unbalanced pool returns less.
    let c = simulate(100, 1, &[5000, 1000], fee).unwrap();
    assert!(c.return_amount < a.return_amount);
}

#[test]
fn provide_initial_mints_the_geometric_mean() {
    let r = provide::simulate(&[10_000, 40_000], &[0, 0], 0).unwrap();
    // floor(sqrt(4e8)) - 1000 = 20000 - 1000 = 19000
    assert_eq!(r.share_amount, 19_000);
}

#[test]
fn provide_later_mints_the_smaller_proportional_share() {
    let r = provide::simulate(&[100, 400], &[1000, 2000], 1000).unwrap();
    // min(100*1000/1000, 400*1000/2000) = min(100, 200) = 100
    assert_eq!(r.share_amount, 100);
}

#[test]
fn provide_zero_deposit_is_rejected() {
    assert_eq!(
        provide::simulate(&[0, 400], &[1000, 2000], 1000),
        Err(ContractError::InvalidZeroAmount)
    );
    assert_eq!(
        provide::simulate(&[100, 0], &[1000, 2000], 1000),
        Err(ContractError::InvalidZeroAmount)
    );
}

#[test]
fn provide_below_minimum_liquidity_is_rejected() {
    // sqrt(16) = 4 <= 1000
    assert_eq!(
        provide::simulate(&[4, 4], &[0, 0], 0),
        Err(ContractError::MinimumLiquidityAmountError)
    );
    // sqrt(1e6) = 1000 leaves zero shares after the burn
    assert_eq!(
        provide::simulate(&[1000, 1000], &[0, 0], 0),
        Err(ContractError::MinimumLiquidityAmountError)
    );
}

#[test]
fn withdraw_is_proportional() {
    let r = withdraw::simulate(500, &[1000, 2000], 1000).unwrap();
    assert_eq!(r.returned_amounts, vec![500, 1000]);
}

#[test]
fn withdraw_with_zero_supply_returns_nothing() {
    let r = withdraw::simulate(500, &[1000, 2000], 0).unwrap();
    assert_eq!(r.returned_amounts, vec![0, 0]);
}

#[test]
fn withdraw_floors_each_refund() {
    let r = withdraw::simulate(1, &[10, 3], 3).unwrap();
    // ratio floor(1/3) = 0.333..3; floor(10 * ratio) = 3, floor(3 * ratio) = 0
    assert_eq!(r.returned_amounts, vec![3, 0]);
}

#[test]
fn swap_with_empty_offer_pool_is_a_division_by_zero() {
    let fee = Dec128::raw(0);
    assert_eq!(
        simulate(0, 1, &[0, 1000], fee),
        Err(MathError::DivideByZero)
    );
}
