use vstd::prelude::*;

use crate::error::MathError;
use crate::u256::{floor_sqrt, lim256, limb_base, unit, U256, ATOMICS_PER_UNIT};

verus! {

/// `10^k`.
pub open spec fn ten_pow(k: nat) -> int
    decreases k,
{
    if k == 0 {
        1
    } else {
        10 * ten_pow((k - 1) as nat)
    }
}

/// Product of two fixed-point values, on atomic units: `floor(a * b / 10^18)`.
pub open spec fn dmul(a: int, b: int) -> int {
    (a * b) / unit()
}

/// Quotient of two fixed-point values, on atomic units:
/// `floor(a * 10^18 / b)`. Meaningful only for `b != 0`.
pub open spec fn ddiv(a: int, b: int) -> int {
    (a * unit()) / b
}

/// One step short of the exponentiation-by-squaring loop: the value of
/// `x^n * y` under fixed-point rounding, or the overflow error raised by
/// the first product that exceeds 256 bits. The order of the checks
/// mirrors the loop in [`Dec256::checked_pow`].
pub open spec fn dpow_inner(x: int, y: int, n: nat) -> Result<int, MathError>
    decreases n,
{
    if n <= 1 {
        if dmul(x, y) < lim256() {
            Ok(dmul(x, y))
        } else {
            Err(MathError::Overflow)
        }
    } else if n % 2 == 0 {
        if dmul(x, x) < lim256() {
            dpow_inner(dmul(x, x), y, n / 2)
        } else {
            Err(MathError::Overflow)
        }
    } else {
        if dmul(x, y) < lim256() {
            if dmul(x, x) < lim256() {
                dpow_inner(dmul(x, x), dmul(x, y), (n - 1) as nat / 2)
            } else {
                Err(MathError::Overflow)
            }
        } else {
            Err(MathError::Overflow)
        }
    }
}

/// `x^n` under fixed-point rounding (exponentiation by squaring), or the
/// overflow error of the first oversized intermediate product.
pub open spec fn dpow(x: int, n: nat) -> Result<int, MathError> {
    if n == 0 {
        Ok(unit())
    } else {
        dpow_inner(x, unit(), n)
    }
}

/// The argument handed to the integer square root when the fixed-point
/// root is computed with `p` extra digits of precision.
pub open spec fn sqrt_arg(a: int, p: nat) -> int {
    a * ten_pow(2 * p)
}

/// The largest precision `q <= p` whose widened argument still fits in
/// 256 bits. Precision 0 always fits.
pub open spec fn sqrt_prec_of(a: int, p: nat) -> nat
    decreases p,
{
    if p == 0 {
        0
    } else if sqrt_arg(a, p) < lim256() {
        p
    } else {
        sqrt_prec_of(a, (p - 1) as nat)
    }
}

/// Square root of a fixed-point value, on atomic units: the integer root of
/// the argument widened by the largest feasible power of 100 (at most
/// `100^9`), scaled back to 18 fractional digits.
pub open spec fn dec_sqrt(a: int) -> int {
    let p = sqrt_prec_of(a, 9);
    floor_sqrt(sqrt_arg(a, p) as nat) * ten_pow((9 - p) as nat)
}

/// `10^k` is at least one.
pub proof fn lemma_ten_pow_pos(k: nat)
    ensures
        ten_pow(k) >= 1,
    decreases k,
{
    if k > 0 {
        lemma_ten_pow_pos((k - 1) as nat);
    }
}

/// `10^k` grows with `k`.
pub proof fn lemma_ten_pow_le(i: nat, j: nat)
    requires
        i <= j,
    ensures
        ten_pow(i) <= ten_pow(j),
    decreases j,
{
    if i < j {
        lemma_ten_pow_le(i, (j - 1) as nat);
        lemma_ten_pow_pos((j - 1) as nat);
    }
}

/// The defining property of [`floor_sqrt`]: it is the largest integer whose
/// square does not exceed the argument.
pub proof fn lemma_floor_sqrt_bounds(n: nat)
    ensures
        (floor_sqrt(n) as int) * (floor_sqrt(n) as int) <= n,
        n < (floor_sqrt(n) as int + 1) * (floor_sqrt(n) as int + 1),
    decreases n,
{
    if n == 0 {
        assert(floor_sqrt(n) == 0);
        assert((floor_sqrt(n) as int) * (floor_sqrt(n) as int) <= n);
        assert(n < (floor_sqrt(n) as int + 1) * (floor_sqrt(n) as int + 1));
    } else {
        lemma_floor_sqrt_bounds((n - 1) as nat);
        let r = floor_sqrt((n - 1) as nat) as int;
        assert(r >= 0);
        if (r + 1) * (r + 1) <= n {
            assert(floor_sqrt(n) == r + 1);
            assert((floor_sqrt(n) as int) * (floor_sqrt(n) as int) == (r + 1) * (r + 1));
            assert((r + 1) * (r + 1) < (r + 2) * (r + 2)) by (nonlinear_arith)
                requires
                    r >= 0,
            ;
        } else {
            assert(floor_sqrt(n) == r);
            assert(r * r <= n - 1);
            assert((floor_sqrt(n) as int) * (floor_sqrt(n) as int) == r * r);
        }
        assert((floor_sqrt(n) as int) * (floor_sqrt(n) as int) <= n);
        assert(n < (floor_sqrt(n) as int + 1) * (floor_sqrt(n) as int + 1));
    }
}

/// `10^k` for `k` up to 18, in 128 bits.
pub fn ten_pow_u128(k: u32) -> (r: u128)
    requires
        k <= 18,
    ensures
        r == ten_pow(k as nat),
{
    proof {
        assert(ten_pow(18) == 1_000_000_000_000_000_000) by {
            reveal_with_fuel(ten_pow, 19);
        }
    }
    let mut i: u32 = 0;
    let mut r: u128 = 1;
    while i < k
        invariant
            i <= k <= 18,
            r == ten_pow(i as nat),
        decreases k - i,
    {
        proof {
            lemma_ten_pow_le((i + 1) as nat, 18);
            assert(ten_pow(18) == 1_000_000_000_000_000_000) by {
                reveal_with_fuel(ten_pow, 19);
            }
        }
        r = r * 10;
        i = i + 1;
    }
    r
}

/// An unsigned fixed-point decimal with 18 fractional digits over a 256-bit
/// magnitude. The view is the count of atomic units (`10^-18`), so the
/// represented number is `self@ / 10^18`.
#[derive(Clone, Copy, Debug, PartialEq, Eq)]
pub struct Dec256 {
    pub atomics: U256,
}

impl View for Dec256 {
    type V = int;

    open spec fn view(&self) -> int {
        self.atomics@
    }
}

/// The unit denominator as a 256-bit value.
fn unit_u256() -> (r: U256)
    ensures
        r@ == unit(),
{
    U256::from_u128(ATOMICS_PER_UNIT)
}

impl Dec256 {
    /// The value zero.
    pub fn zero() -> (r: Dec256)
        ensures
            r@ == 0,
    {
        Dec256 { atomics: U256::zero() }
    }

    /// The value one.
    pub fn one() -> (r: Dec256)
        ensures
            r@ == unit(),
    {
        Dec256 { atomics: U256::from_u128(ATOMICS_PER_UNIT) }
    }

    /// The value with the given count of atomic units.
    pub fn raw(atomics: u128) -> (r: Dec256)
        ensures
            r@ == atomics,
    {
        Dec256 { atomics: U256::from_u128(atomics) }
    }

    /// The value over a full 256-bit count of atomic units.
    pub fn new(atomics: U256) -> (r: Dec256)
        ensures
            r@ == atomics@,
    {
        Dec256 { atomics }
    }

    /// Whether the value is zero.
    pub fn is_zero(&self) -> (r: bool)
        ensures
            r <==> self@ == 0,
    {
        self.atomics.is_zero()
    }

    /// Strict comparison.
    pub fn lt(&self, rhs: &Dec256) -> (r: bool)
        ensures
            r <==> self@ < rhs@,
    {
        self.atomics.lt(&rhs.atomics)
    }

    /// Non-strict comparison.
    pub fn le(&self, rhs: &Dec256) -> (r: bool)
        ensures
            r <==> self@ <= rhs@,
    {
        self.atomics.le(&rhs.atomics)
    }

    /// Absolute difference.
    pub fn diff(&self, rhs: &Dec256) -> (r: Dec256)
        ensures
            r@ == if self@ >= rhs@ {
                self@ - rhs@
            } else {
                rhs@ - self@
            },
    {
        if self.atomics.lt(&rhs.atomics) {
            Dec256 { atomics: rhs.atomics.checked_sub(&self.atomics).unwrap() }
        } else {
            Dec256 { atomics: self.atomics.checked_sub(&rhs.atomics).unwrap() }
        }
    }

    /// Checked addition: exact on atomic units.
    pub fn checked_add(&self, rhs: &Dec256) -> (r: Option<Dec256>)
        ensures
            match r {
                Some(v) => self@ + rhs@ < lim256() && v@ == self@ + rhs@,
                None => self@ + rhs@ >= lim256(),
            },
    {
        match self.atomics.checked_add(&rhs.atomics) {
            Some(v) => Some(Dec256 { atomics: v }),
            None => None,
        }
    }

    /// Checked subtraction: exact on atomic units.
    pub fn checked_sub(&self, rhs: &Dec256) -> (r: Option<Dec256>)
        ensures
            match r {
                Some(v) => self@ >= rhs@ && v@ == self@ - rhs@,
                None => self@ < rhs@,
            },
    {
        match self.atomics.checked_sub(&rhs.atomics) {
            Some(v) => Some(Dec256 { atomics: v }),
            None => None,
        }
    }

    /// Subtraction clamped at zero.
    pub fn saturating_sub(&self, rhs: &Dec256) -> (r: Dec256)
        ensures
            r@ == if self@ >= rhs@ {
                self@ - rhs@
            } else {
                0
            },
    {
        match self.atomics.checked_sub(&rhs.atomics) {
            Some(v) => Dec256 { atomics: v },
            None => Dec256 { atomics: U256::zero() },
        }
    }

    /// Checked product: [`dmul`] on atomic units, `None` past 256 bits.
    pub fn checked_mul(&self, rhs: &Dec256) -> (r: Option<Dec256>)
        ensures
            match r {
                Some(v) => dmul(self@, rhs@) < lim256() && v@ == dmul(self@, rhs@),
                None => dmul(self@, rhs@) >= lim256(),
            },
    {
        match self.atomics.checked_multiply_ratio(&rhs.atomics, &unit_u256()) {
            Ok(v) => Some(Dec256 { atomics: v }),
            Err(_) => None,
        }
    }

    /// Checked quotient: [`ddiv`] on atomic units, with the divide-by-zero
    /// and overflow errors.
    pub fn checked_div(&self, rhs: &Dec256) -> (r: Result<Dec256, MathError>)
        ensures
            match r {
                Ok(v) => rhs@ != 0 && ddiv(self@, rhs@) < lim256() && v@ == ddiv(self@, rhs@),
                Err(e) => if rhs@ == 0 {
                    e == MathError::DivideByZero
                } else {
                    ddiv(self@, rhs@) >= lim256() && e == MathError::Overflow
                },
            },
    {
        Dec256::checked_from_ratio(&self.atomics, &rhs.atomics)
    }

    /// The ratio of two plain integers as a fixed-point value:
    /// `floor(numerator * 10^18 / denominator)` atomic units.
    pub fn checked_from_ratio(numerator: &U256, denominator: &U256) -> (r: Result<
        Dec256,
        MathError,
    >)
        ensures
            match r {
                Ok(v) => denominator@ != 0 && ddiv(numerator@, denominator@) < lim256() && v@
                    == ddiv(numerator@, denominator@),
                Err(e) => if denominator@ == 0 {
                    e == MathError::DivideByZero
                } else {
                    ddiv(numerator@, denominator@) >= lim256() && e == MathError::Overflow
                },
            },
    {
        match numerator.checked_multiply_ratio(&unit_u256(), denominator) {
            Ok(v) => Ok(Dec256 { atomics: v }),
            Err(e) => Err(e),
        }
    }

    /// A plain integer as a fixed-point value.
    pub fn from_integer(i: &U256) -> (r: Result<Dec256, MathError>)
        ensures
            match r {
                Ok(v) => i@ * unit() < lim256() && v@ == i@ * unit(),
                Err(e) => i@ * unit() >= lim256() && e == MathError::Overflow,
            },
    {
        let one = U256::from_u128(1);
        proof {
            vstd::arithmetic::div_mod::lemma_div_basics(i@ * unit());
        }
        Dec256::checked_from_ratio(i, &one)
    }

    /// `self * numerator / denominator` on raw atomic units, floored once.
    pub fn checked_multiply_ratio(&self, numerator: &Dec256, denominator: &Dec256) -> (r: Result<
        Dec256,
        MathError,
    >)
        ensures
            match r {
                Ok(v) => denominator@ != 0 && (self@ * numerator@) / denominator@ < lim256() && v@
                    == (self@ * numerator@) / denominator@,
                Err(e) => if denominator@ == 0 {
                    e == MathError::DivideByZero
                } else {
                    (self@ * numerator@) / denominator@ >= lim256() && e == MathError::Overflow
                },
            },
    {
        match self.atomics.checked_multiply_ratio(&numerator.atomics, &denominator.atomics) {
            Ok(v) => Ok(Dec256 { atomics: v }),
            Err(e) => Err(e),
        }
    }

    /// A value given as a count of atomic units at `decimal_places`
    /// fractional digits, widened to 18 fractional digits.
    pub fn from_atomics(value: &U256, decimal_places: u32) -> (r: Result<Dec256, MathError>)
        requires
            decimal_places <= 18,
        ensures
            match r {
                Ok(v) => value@ * ten_pow((18 - decimal_places) as nat) < lim256() && v@ == value@
                    * ten_pow((18 - decimal_places) as nat),
                Err(e) => value@ * ten_pow((18 - decimal_places) as nat) >= lim256() && e
                    == MathError::Overflow,
            },
    {
        let one = U256::from_u128(1);
        let factor = U256::from_u128(ten_pow_u128(18 - decimal_places));
        proof {
            vstd::arithmetic::div_mod::lemma_div_basics(value@ * ten_pow((18 - decimal_places) as nat));
        }
        match value.checked_multiply_ratio(&factor, &one) {
            Ok(v) => Ok(Dec256 { atomics: v }),
            Err(_) => Err(MathError::Overflow),
        }
    }

    /// The whole part of the value as a plain integer.
    pub fn to_uint256(&self) -> (r: U256)
        ensures
            r@ == self@ / unit(),
    {
        self.atomics.checked_div(&unit_u256()).unwrap()
    }

    /// The count of atomic units at `precision` fractional digits, as a
    /// 256-bit integer (truncating the digits below `precision`).
    pub fn to_uint256_with_precision(&self, precision: u32) -> (r: U256)
        requires
            precision <= 18,
        ensures
            r@ == self@ / ten_pow((18 - precision) as nat),
    {
        let divisor = U256::from_u128(ten_pow_u128(18 - precision));
        proof {
            lemma_ten_pow_pos((18 - precision) as nat);
        }
        self.atomics.checked_div(&divisor).unwrap()
    }

    /// The count of atomic units at `precision` fractional digits, narrowed
    /// to 128 bits.
    pub fn to_uint128_with_precision(&self, precision: u32) -> (r: Result<u128, MathError>)
        requires
            precision <= 18,
        ensures
            match r {
                Ok(v) => v == self@ / ten_pow((18 - precision) as nat) && v < limb_base(),
                Err(e) => self@ / ten_pow((18 - precision) as nat) >= limb_base() && e
                    == MathError::ConversionOverflow,
            },
    {
        let wide = self.to_uint256_with_precision(precision);
        match wide.try_into_u128() {
            Some(v) => Ok(v),
            None => Err(MathError::ConversionOverflow),
        }
    }

    /// The value scaled to `precision` fractional digits and floored, as a
    /// 128-bit integer: `floor(self * 10^precision)`.
    pub fn to_uint(&self, precision: u32) -> (r: Result<u128, MathError>)
        requires
            precision <= 18,
        ensures
            match r {
                Ok(v) => v == (self@ * ten_pow(precision as nat)) / unit() && v < limb_base(),
                Err(e) => if (self@ * ten_pow(precision as nat)) / unit() >= lim256() {
                    e == MathError::Overflow
                } else {
                    (self@ * ten_pow(precision as nat)) / unit() >= limb_base() && e
                        == MathError::ConversionOverflow
                },
            },
    {
        let multiplier = U256::from_u128(ten_pow_u128(precision));
        match self.atomics.checked_multiply_ratio(&multiplier, &unit_u256()) {
            Ok(wide) => match wide.try_into_u128() {
                Some(v) => Ok(v),
                None => Err(MathError::ConversionOverflow),
            },
            Err(_) => Err(MathError::Overflow),
        }
    }

    /// Fixed-point power by squaring; matches `cosmwasm_std::Decimal256`'s
    /// iteration, including the order in which intermediate products may
    /// overflow.
    pub fn checked_pow(&self, exp: u32) -> (r: Result<Dec256, MathError>)
        ensures
            match r {
                Ok(v) => dpow(self@, exp as nat) == Ok::<int, MathError>(v@),
                Err(e) => dpow(self@, exp as nat) == Err::<int, MathError>(e),
            },
    {
        if exp == 0 {
            return Ok(Dec256::one());
        }
        let mut x = *self;
        let mut y = Dec256::one();
        let mut n: u32 = exp;
        while n > 1
            invariant
                n >= 1,

                dpow_inner(x@, y@, n as nat) == dpow(self@, exp as nat),
            decreases n,
        {
            if n % 2 == 0 {
                match x.checked_mul(&x) {
                    Some(xx) => {
                        x = xx;
                    },
                    None => {
                        return Err(MathError::Overflow);
                    },
                }
                n = n / 2;
            } else {
                match x.checked_mul(&y) {
                    Some(xy) => {
                        y = xy;
                    },
                    None => {
                        return Err(MathError::Overflow);
                    },
                }
                match x.checked_mul(&x) {
                    Some(xx) => {
                        x = xx;
                    },
                    None => {
                        return Err(MathError::Overflow);
                    },
                }
                n = (n - 1) / 2;
            }
        }
        match x.checked_mul(&y) {
            Some(v) => Ok(v),
            None => Err(MathError::Overflow),
        }
    }

    /// Fixed-point square root; matches `cosmwasm_std::Decimal256`'s search
    /// for the largest precision that avoids overflow.
    pub fn sqrt(&self) -> (r: Dec256)
        ensures
            r@ == dec_sqrt(self@),
    {
        let one = U256::from_u128(1);
        let mut p: u32 = 9;
        loop
            invariant
                p <= 9,
                one@ == 1,
                sqrt_prec_of(self@, 9) == sqrt_prec_of(self@, p as nat),
            decreases p,
        {
            let widener = U256::from_u128(ten_pow_u128(2 * p));
            match self.atomics.checked_multiply_ratio(&widener, &one) {
                Ok(inner) => {
                    proof {
                        assert(widener@ == ten_pow(2 * (p as nat)));
                        vstd::arithmetic::div_mod::lemma_div_basics(self@ * widener@);
                        assert(inner@ == self@ * widener@);
                        assert(inner@ == sqrt_arg(self@, p as nat));
                        assert(sqrt_prec_of(self@, p as nat) == p as nat);
                    }
                    let root = inner.isqrt();
                    let outer = U256::from_u128(ten_pow_u128(9 - p));
                    proof {
                        lemma_floor_sqrt_bounds(inner@ as nat);
                        assert(root@ < limb_base()) by (nonlinear_arith)
                            requires
                                root@ * root@ <= inner@,
                                inner@ < lim256(),
                                lim256() == limb_base() * limb_base(),
                                root@ >= 0,
                        ;
                        lemma_ten_pow_le((9 - p) as nat, 9);
                        assert(ten_pow(9) == 1_000_000_000) by {
                            reveal_with_fuel(ten_pow, 10);
                        }
                        assert(root@ * outer@ < lim256()) by (nonlinear_arith)
                            requires
                                0 <= root@ < limb_base(),
                                0 <= outer@ <= 1_000_000_000,
                                lim256() == limb_base() * limb_base(),
                                limb_base() > 1_000_000_000,
                        ;
                    }
                    proof {
                        vstd::arithmetic::div_mod::lemma_div_basics(root@ * outer@);
                    }
                    let scaled = root.checked_multiply_ratio(&outer, &one).unwrap();
                    return Dec256 { atomics: scaled };
                },
                Err(_) => {
                    proof {
                        assert(widener@ == ten_pow(2 * (p as nat)));
                        vstd::arithmetic::div_mod::lemma_div_basics(self@ * widener@);
                        assert(sqrt_arg(self@, p as nat) >= lim256());
                        assert(self@ < lim256());
                        if p == 0 {
                            assert(ten_pow(0) == 1) by {
                                reveal_with_fuel(ten_pow, 1);
                            }
                            assert(sqrt_arg(self@, 0) == self@ * 1);
                            assert(false);
                        }
                    }
                    p = p - 1;
                },
            }
        }
    }
}

/// Writing an 18-digit value out at `precision` fractional digits and
/// reading it back yields the input truncated to `precision` fractional
/// digits: the round trip loses exactly the digits below `precision`.
pub proof fn lemma_precision_round_trip(a: int, p: nat)
    requires
        0 <= a < lim256(),
        p <= 18,
    ensures
        (a / ten_pow((18 - p) as nat)) * ten_pow((18 - p) as nat) == a - a % ten_pow(
            (18 - p) as nat,
        ),
        0 <= (a / ten_pow((18 - p) as nat)) * ten_pow((18 - p) as nat) <= a,
{
    let f = ten_pow((18 - p) as nat);
    lemma_ten_pow_pos((18 - p) as nat);
    vstd::arithmetic::div_mod::lemma_fundamental_div_mod(a, f);
    vstd::arithmetic::div_mod::lemma_mod_bound(a, f);
    vstd::arithmetic::div_mod::lemma_div_pos_is_pos(a, f);
    assert(f * (a / f) == (a / f) * f) by (nonlinear_arith);
    assert((a / f) * f >= 0) by (nonlinear_arith)
        requires
            a / f >= 0,
            f >= 1,
    ;
}

} // verus!
