use amm_sim::dec256::Dec256;
use amm_sim::error::MathError;
use amm_sim::pair_concentrated::signed_decimal::SignedDecimal256;

const UNIT: u128 = 1_000_000_000_000_000_000;

fn pos(atomics: u128) -> SignedDecimal256 {
    SignedDecimal256::from_dec256(Dec256::raw(atomics))
}

fn neg(atomics: u128) -> SignedDecimal256 {
    SignedDecimal256::new(Dec256::raw(atomics), true)
}

#[test]
fn adding_the_negation_yields_zero() {
    let a = pos(5 * UNIT);
    let z = a.checked_add(&a.neg()).unwrap();
    assert_eq!(z.val, Dec256::zero());
    let b = neg(3 * UNIT);
    let z2 = b.checked_add(&b.neg()).unwrap();
    assert_eq!(z2.val, Dec256::zero());
}

#[test]
fn subtraction_is_antisymmetric() {
    let a = pos(7 * UNIT);
    let b = pos(10 * UNIT);
    let ab = a.checked_sub(&b).unwrap();
    let ba = b.checked_sub(&a).unwrap();
    assert_eq!(ab.val, ba.val);
    assert_eq!(ab.val, Dec256::raw(3 * UNIT));
    assert!(ab.neg);
    assert!(!ba.neg);
}

#[test]
fn multiplication_is_commutative() {
    let a = neg(3 * UNIT / 2);
    let b = pos(4 * UNIT);
    let ab = a.checked_mul(&b).unwrap();
    let ba = b.checked_mul(&a).unwrap();
    assert_eq!(ab, ba);
    assert_eq!(ab.val, Dec256::raw(6 * UNIT));
    assert!(ab.neg);
}

#[test]
fn multiplication_is_associative_on_exact_operands() {
    let a = pos(2 * UNIT);
    let b = neg(3 * UNIT);
    let c = pos(4 * UNIT);
    let left = a.checked_mul(&b).unwrap().checked_mul(&c).unwrap();
    let right = a.checked_mul(&b.checked_mul(&c).unwrap()).unwrap();
    assert_eq!(left, right);
    assert_eq!(left.val, Dec256::raw(24 * UNIT));
    assert!(left.neg);
}

#[test]
fn division_combines_signs() {
    let a = neg(6 * UNIT);
    let b = pos(4 * UNIT);
    let q = a.checked_div(&b).unwrap();
    assert_eq!(q.val, Dec256::raw(3 * UNIT / 2));
    assert!(q.neg);
    assert_eq!(
        a.checked_div(&pos(0)),
        Err(MathError::DivideByZero)
    );
}

#[test]
fn pow_keeps_the_sign_on_odd_exponents() {
    let a = neg(2 * UNIT);
    let sq = a.pow(2).unwrap();
    assert_eq!(sq.val, Dec256::raw(4 * UNIT));
    assert!(!sq.neg);
    let cube = a.pow(3).unwrap();
    assert_eq!(cube.val, Dec256::raw(8 * UNIT));
    assert!(cube.neg);
    // zero base collapses to canonical zero whatever the sign flag says
    let z = neg(0).pow(3).unwrap();
    assert_eq!(z.val, Dec256::zero());
    assert!(!z.neg);
}

#[test]
fn diff_is_the_unsigned_distance() {
    assert_eq!(pos(5 * UNIT).diff(&pos(2 * UNIT)).unwrap(), Dec256::raw(3 * UNIT));
    assert_eq!(pos(2 * UNIT).diff(&pos(5 * UNIT)).unwrap(), Dec256::raw(3 * UNIT));
    assert_eq!(pos(2 * UNIT).diff(&neg(5 * UNIT)).unwrap(), Dec256::raw(7 * UNIT));
}

#[test]
fn negative_values_do_not_convert_to_unsigned() {
    assert_eq!(
        neg(UNIT).try_into_dec256(),
        Err(MathError::Negative)
    );
    // a negative-flagged zero is still zero
    assert_eq!(neg(0).try_into_dec256(), Ok(Dec256::zero()));
    assert_eq!(pos(UNIT).try_into_dec256(), Ok(Dec256::raw(UNIT)));
}
