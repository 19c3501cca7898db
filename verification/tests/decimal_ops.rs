use amm_sim::dec128::Dec128;
use amm_sim::dec256::Dec256;
use amm_sim::error::MathError;
use amm_sim::u256::U256;

const UNIT: u128 = 1_000_000_000_000_000_000;

#[test]
fn add_and_sub_are_exact() {
    let a = Dec256::raw(3 * UNIT / 2);
    let b = Dec256::raw(UNIT / 2);
    assert_eq!(a.checked_add(&b).unwrap(), Dec256::raw(2 * UNIT));
    assert_eq!(a.checked_sub(&b).unwrap(), Dec256::raw(UNIT));
    assert!(b.checked_sub(&a).is_none());
}

#[test]
fn mul_floors_the_product() {
    // 1.5 * 2 = 3
    let a = Dec256::raw(3 * UNIT / 2);
    let b = Dec256::raw(2 * UNIT);
    assert_eq!(a.checked_mul(&b).unwrap(), Dec256::raw(3 * UNIT));
    // 1e-18 * 0.5 floors to zero
    let tiny = Dec256::raw(1);
    let half = Dec256::raw(UNIT / 2);
    assert_eq!(tiny.checked_mul(&half).unwrap(), Dec256::zero());
}

#[test]
fn div_floors_the_quotient() {
    // 5 / 2 = 2.5
    let five = Dec256::raw(5 * UNIT);
    let two = Dec256::raw(2 * UNIT);
    assert_eq!(five.checked_div(&two).unwrap(), Dec256::raw(5 * UNIT / 2));
    assert_eq!(
        five.checked_div(&Dec256::zero()),
        Err(MathError::DivideByZero)
    );
}

#[test]
fn multiply_ratio_floors_once() {
    // 10 * 3 / 4 = 7.5 -> 7 on raw atomic units
    let a = Dec256::raw(10);
    let r = a
        .checked_multiply_ratio(&Dec256::raw(3), &Dec256::raw(4))
        .unwrap();
    assert_eq!(r, Dec256::raw(7));
}

#[test]
fn sqrt_is_exact_on_squares() {
    assert_eq!(Dec256::raw(4 * UNIT).sqrt(), Dec256::raw(2 * UNIT));
    assert_eq!(Dec256::raw(UNIT).sqrt(), Dec256::raw(UNIT));
    assert_eq!(Dec256::zero().sqrt(), Dec256::zero());
    // sqrt(2) to 18 digits: 1.414213562373095048
    assert_eq!(
        Dec256::raw(2 * UNIT).sqrt(),
        Dec256::raw(1_414_213_562_373_095_048)
    );
}

#[test]
fn pow_matches_repeated_multiplication() {
    let two = Dec256::raw(2 * UNIT);
    assert_eq!(two.checked_pow(0).unwrap(), Dec256::one());
    assert_eq!(two.checked_pow(2).unwrap(), Dec256::raw(4 * UNIT));
    assert_eq!(two.checked_pow(3).unwrap(), Dec256::raw(8 * UNIT));
    let half = Dec256::raw(UNIT / 2);
    assert_eq!(half.checked_pow(2).unwrap(), Dec256::raw(UNIT / 4));
}

#[test]
fn precision_round_trip_truncates() {
    // 1.234567890123456789 written out at precision 6 and read back is
    // 1.234567 exactly.
    let a = Dec256::raw(1_234_567_890_123_456_789);
    let native = a.to_uint256_with_precision(6);
    assert_eq!(native, U256 { hi: 0, lo: 1_234_567 });
    let back = Dec256::from_atomics(&native, 6).unwrap();
    assert_eq!(back, Dec256::raw(1_234_567_000_000_000_000));
}

#[test]
fn to_uint_scales_and_floors() {
    let a = Dec256::raw(1_234_567_890_123_456_789);
    assert_eq!(a.to_uint(0).unwrap(), 1);
    assert_eq!(a.to_uint(6).unwrap(), 1_234_567);
    assert_eq!(a.to_uint(18).unwrap(), 1_234_567_890_123_456_789);
}

#[test]
fn to_uint128_overflow_is_reported() {
    let big = Dec256::new(U256 { hi: 1, lo: 0 });
    assert_eq!(
        big.to_uint128_with_precision(18),
        Err(MathError::ConversionOverflow)
    );
}

#[test]
fn u256_isqrt_rounds_down() {
    assert_eq!(U256::from_u128(400_000_000).isqrt(), U256::from_u128(20_000));
    assert_eq!(U256::from_u128(17).isqrt(), U256::from_u128(4));
    assert_eq!(U256::from_u128(0).isqrt(), U256::from_u128(0));
}

#[test]
fn dec128_ops_are_exact() {
    let a = Dec128::raw(3 * UNIT / 2);
    let b = Dec128::raw(2 * UNIT);
    assert_eq!(a.checked_mul(&b).unwrap(), Dec128::raw(3 * UNIT));
    assert_eq!(b.checked_div(&a).unwrap(), Dec128::raw(4 * UNIT / 3));
    assert_eq!(Dec128::from_u64(7), Dec128::raw(7 * UNIT));
    // floor(0.003 * 90) = 0
    assert_eq!(Dec128::raw(3 * UNIT / 1000).checked_mul_uint128(90), Some(0));
    // floor(0.5 * 91) = 45
    assert_eq!(Dec128::raw(UNIT / 2).checked_mul_uint128(91), Some(45));
}

#[test]
fn oversized_results_are_reported_as_overflow() {
    let huge = Dec256::new(U256 { hi: u128::MAX, lo: u128::MAX });
    assert!(huge.checked_add(&Dec256::raw(1)).is_none());
    assert!(huge.checked_mul(&huge).is_none());
    assert_eq!(
        huge.checked_div(&Dec256::raw(1)),
        Err(MathError::Overflow)
    );
}
