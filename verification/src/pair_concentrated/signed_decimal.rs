use vstd::prelude::*;

use crate::dec256::{ddiv, dmul, dpow, Dec256};
use crate::error::MathError;
use crate::u256::lim256;

verus! {

/// Specification-level sign-and-magnitude value: magnitude `m` in atomic
/// units and a sign flag. The represented number is [`interp`].
pub struct SdVal {
    pub m: int,
    pub neg: bool,
}

/// The signed number a sign-and-magnitude value stands for.
pub open spec fn interp(a: SdVal) -> int {
    if a.neg {
        -a.m
    } else {
        a.m
    }
}

/// A non-negative value.
pub open spec fn sd_of(m: int) -> SdVal {
    SdVal { m, neg: false }
}

/// Sign flip, keeping the magnitude.
pub open spec fn sd_neg(a: SdVal) -> SdVal {
    SdVal { m: a.m, neg: !a.neg }
}

/// Signed addition. With agreeing signs the magnitudes add (and may
/// overflow); otherwise the smaller magnitude is subtracted from the larger
/// and the larger operand's sign is kept (ties keep the right operand's
/// sign on a zero magnitude).
pub open spec fn sd_add(a: SdVal, b: SdVal) -> Result<SdVal, MathError> {
    if a.neg == b.neg {
        if a.m + b.m < lim256() {
            Ok(SdVal { m: a.m + b.m, neg: a.neg })
        } else {
            Err(MathError::Overflow)
        }
    } else if a.m > b.m {
        Ok(SdVal { m: a.m - b.m, neg: a.neg })
    } else {
        Ok(SdVal { m: b.m - a.m, neg: b.neg })
    }
}

/// Signed subtraction: addition of the negation.
pub open spec fn sd_sub(a: SdVal, b: SdVal) -> Result<SdVal, MathError> {
    sd_add(a, sd_neg(b))
}

/// Signed product: [`dmul`] on magnitudes, exclusive-or on signs.
pub open spec fn sd_mul(a: SdVal, b: SdVal) -> Result<SdVal, MathError> {
    if dmul(a.m, b.m) < lim256() {
        Ok(SdVal { m: dmul(a.m, b.m), neg: a.neg != b.neg })
    } else {
        Err(MathError::Overflow)
    }
}

/// Signed quotient: [`ddiv`] on magnitudes, exclusive-or on signs.
pub open spec fn sd_div(a: SdVal, b: SdVal) -> Result<SdVal, MathError> {
    if b.m == 0 {
        Err(MathError::DivideByZero)
    } else if ddiv(a.m, b.m) < lim256() {
        Ok(SdVal { m: ddiv(a.m, b.m), neg: a.neg != b.neg })
    } else {
        Err(MathError::Overflow)
    }
}

/// Signed power: [`dpow`] on the magnitude; an even exponent is positive,
/// an odd one keeps the base's sign; a zero magnitude yields canonical zero.
pub open spec fn sd_pow(a: SdVal, n: nat) -> Result<SdVal, MathError> {
    if a.m == 0 {
        Ok(sd_of(0))
    } else {
        match dpow(a.m, n) {
            Ok(m) => Ok(SdVal { m, neg: if n % 2 == 0 { false } else { a.neg } }),
            Err(e) => Err(e),
        }
    }
}

/// Unsigned distance of two signed values: the difference of magnitudes
/// under agreeing signs, their (possibly overflowing) sum otherwise.
pub open spec fn sd_diff(a: SdVal, b: SdVal) -> Result<int, MathError> {
    if a.neg == b.neg {
        if a.m >= b.m {
            Ok(a.m - b.m)
        } else {
            Ok(b.m - a.m)
        }
    } else {
        if a.m + b.m < lim256() {
            Ok(a.m + b.m)
        } else {
            Err(MathError::Overflow)
        }
    }
}

/// Conversion back to an unsigned magnitude: the magnitude where the value
/// is non-negative or a (possibly negative-flagged) zero, an error on a
/// strictly negative value.
pub open spec fn sd_try_into(a: SdVal) -> Result<int, MathError> {
    if !a.neg || a.m == 0 {
        Ok(a.m)
    } else {
        Err(MathError::Negative)
    }
}

/// A signed fixed-point decimal: an unsigned 256-bit magnitude and a sign
/// flag. Newton residuals straddle zero, so the solver arithmetic runs on
/// this type; everything else in the crate stays unsigned.
#[derive(Clone, Copy, Debug, PartialEq, Eq)]
pub struct SignedDecimal256 {
    pub val: Dec256,
    /// `false` - positive, `true` - negative.
    pub neg: bool,
}

impl View for SignedDecimal256 {
    type V = SdVal;

    open spec fn view(&self) -> SdVal {
        SdVal { m: self.val@, neg: self.neg }
    }
}

impl SignedDecimal256 {
    /// A value from its parts.
    pub fn new(val: Dec256, neg: bool) -> (r: SignedDecimal256)
        ensures
            r@ == (SdVal { m: val@, neg }),
    {
        SignedDecimal256 { val, neg }
    }

    /// A non-negative value.
    pub fn from_dec256(val: Dec256) -> (r: SignedDecimal256)
        ensures
            r@ == sd_of(val@),
    {
        SignedDecimal256 { val, neg: false }
    }

    /// Sign flip.
    pub fn neg(&self) -> (r: SignedDecimal256)
        ensures
            r@ == sd_neg(self@),
    {
        SignedDecimal256 { val: self.val, neg: !self.neg }
    }

    /// Checked signed addition; see [`sd_add`].
    pub fn checked_add(&self, rhs: &SignedDecimal256) -> (r: Result<SignedDecimal256, MathError>)
        ensures
            match r {
                Ok(v) => sd_add(self@, rhs@) == Ok::<SdVal, MathError>(v@),
                Err(e) => sd_add(self@, rhs@) == Err::<SdVal, MathError>(e),
            },
    {
        if self.neg == rhs.neg {
            match self.val.checked_add(&rhs.val) {
                Some(v) => Ok(SignedDecimal256 { val: v, neg: self.neg }),
                None => Err(MathError::Overflow),
            }
        } else if rhs.val.lt(&self.val) {
            Ok(SignedDecimal256 { val: self.val.checked_sub(&rhs.val).unwrap(), neg: self.neg })
        } else {
            Ok(SignedDecimal256 { val: rhs.val.checked_sub(&self.val).unwrap(), neg: rhs.neg })
        }
    }

    /// Checked signed subtraction; see [`sd_sub`].
    pub fn checked_sub(&self, rhs: &SignedDecimal256) -> (r: Result<SignedDecimal256, MathError>)
        ensures
            match r {
                Ok(v) => sd_sub(self@, rhs@) == Ok::<SdVal, MathError>(v@),
                Err(e) => sd_sub(self@, rhs@) == Err::<SdVal, MathError>(e),
            },
    {
        self.checked_add(&rhs.neg())
    }

    /// Checked signed product; see [`sd_mul`].
    pub fn checked_mul(&self, rhs: &SignedDecimal256) -> (r: Result<SignedDecimal256, MathError>)
        ensures
            match r {
                Ok(v) => sd_mul(self@, rhs@) == Ok::<SdVal, MathError>(v@),
                Err(e) => sd_mul(self@, rhs@) == Err::<SdVal, MathError>(e),
            },
    {
        match self.val.checked_mul(&rhs.val) {
            Some(v) => Ok(SignedDecimal256 { val: v, neg: self.neg != rhs.neg }),
            None => Err(MathError::Overflow),
        }
    }

    /// Checked signed quotient; see [`sd_div`].
    pub fn checked_div(&self, rhs: &SignedDecimal256) -> (r: Result<SignedDecimal256, MathError>)
        ensures
            match r {
                Ok(v) => sd_div(self@, rhs@) == Ok::<SdVal, MathError>(v@),
                Err(e) => sd_div(self@, rhs@) == Err::<SdVal, MathError>(e),
            },
    {
        match self.val.checked_div(&rhs.val) {
            Ok(v) => Ok(SignedDecimal256 { val: v, neg: self.neg != rhs.neg }),
            Err(e) => Err(e),
        }
    }

    /// Checked signed power; see [`sd_pow`].
    pub fn pow(&self, exp: u32) -> (r: Result<SignedDecimal256, MathError>)
        ensures
            match r {
                Ok(v) => sd_pow(self@, exp as nat) == Ok::<SdVal, MathError>(v@),
                Err(e) => sd_pow(self@, exp as nat) == Err::<SdVal, MathError>(e),
            },
    {
        if self.val.is_zero() {
            Ok(SignedDecimal256 { val: Dec256::zero(), neg: false })
        } else {
            let neg = if exp % 2 == 0 {
                false
            } else {
                self.neg
            };
            match self.val.checked_pow(exp) {
                Ok(v) => Ok(SignedDecimal256 { val: v, neg }),
                Err(e) => Err(e),
            }
        }
    }

    /// Unsigned distance; see [`sd_diff`].
    pub fn diff(&self, other: &SignedDecimal256) -> (r: Result<Dec256, MathError>)
        ensures
            match r {
                Ok(v) => sd_diff(self@, other@) == Ok::<int, MathError>(v@),
                Err(e) => sd_diff(self@, other@) == Err::<int, MathError>(e),
            },
    {
        if self.neg == other.neg {
            Ok(self.val.diff(&other.val))
        } else {
            match self.val.checked_add(&other.val) {
                Some(v) => Ok(v),
                None => Err(MathError::Overflow),
            }
        }
    }

    /// Conversion to the unsigned type; see [`sd_try_into`].
    pub fn try_into_dec256(&self) -> (r: Result<Dec256, MathError>)
        ensures
            match r {
                Ok(v) => sd_try_into(self@) == Ok::<int, MathError>(v@),
                Err(e) => sd_try_into(self@) == Err::<int, MathError>(e),
            },
    {
        if !self.neg || self.val.is_zero() {
            Ok(self.val)
        } else {
            Err(MathError::Negative)
        }
    }
}

/// Adding a value to its own negation yields zero: the sum is defined and
/// stands for the number zero.
pub proof fn lemma_add_neg_is_zero(a: SdVal)
    ensures
        sd_add(a, sd_neg(a)) matches Ok(z) && interp(z) == 0,
{
}

/// Subtraction is antisymmetric: `a - b` and `b - a` are defined together,
/// and stand for opposite numbers.
pub proof fn lemma_sub_antisymmetric(a: SdVal, b: SdVal)
    requires
        0 <= a.m,
        0 <= b.m,
    ensures
        sd_sub(a, b) is Ok <==> sd_sub(b, a) is Ok,
        sd_sub(a, b) matches Ok(c) ==> sd_sub(b, a) matches Ok(d) && interp(c) == -interp(d),
{
}

/// Multiplication is commutative, overflow included.
pub proof fn lemma_mul_commutative(a: SdVal, b: SdVal)
    ensures
        sd_mul(a, b) == sd_mul(b, a),
{
    assert(a.m * b.m == b.m * a.m) by (nonlinear_arith);
}

/// Multiplication is associative on operands whose pairwise products are
/// exact at 18 fractional digits (no rounding) and whose intermediate
/// products stay within 256 bits.
pub proof fn lemma_mul_associative(a: SdVal, b: SdVal, c: SdVal)
    requires
        0 <= a.m,
        0 <= b.m,
        0 <= c.m,
        (a.m * b.m) % crate::u256::unit() == 0,
        (b.m * c.m) % crate::u256::unit() == 0,
        dmul(a.m, b.m) < lim256(),
        dmul(b.m, c.m) < lim256(),
        dmul(dmul(a.m, b.m), c.m) < lim256(),
    ensures
        sd_mul(a, b) matches Ok(ab) && sd_mul(ab, c) matches Ok(abc) && sd_mul(b, c) matches Ok(
            bc,
        ) && sd_mul(a, bc) == Ok::<SdVal, MathError>(abc),
{
    let u = crate::u256::unit();
    let kab = a.m * b.m / u;
    let kbc = b.m * c.m / u;
    vstd::arithmetic::div_mod::lemma_fundamental_div_mod(a.m * b.m, u);
    vstd::arithmetic::div_mod::lemma_fundamental_div_mod(b.m * c.m, u);
    assert(kab * c.m == a.m * kbc) by (nonlinear_arith)
        requires
            a.m * b.m == u * kab,
            b.m * c.m == u * kbc,
            u > 0,
    ;
}

} // verus!
