use vstd::prelude::*;

use crate::dec256::{ddiv, dmul, Dec256};
use crate::error::MathError;
use crate::u256::{full_mul_u128, limb_base, unit, U256, ATOMICS_PER_UNIT};

verus! {

/// An unsigned fixed-point decimal with 18 fractional digits over a 128-bit
/// magnitude. The view is the count of atomic units (`10^-18`).
///
/// The ramp parameters and flat fee rates use this narrower width; pool
/// amounts use [`Dec256`].
#[derive(Clone, Copy, Debug, PartialEq, Eq)]
pub struct Dec128 {
    pub atomics: u128,
}

impl View for Dec128 {
    type V = int;

    open spec fn view(&self) -> int {
        self.atomics as int
    }
}

impl Dec128 {
    /// The value zero.
    pub fn zero() -> (r: Dec128)
        ensures
            r@ == 0,
    {
        Dec128 { atomics: 0 }
    }

    /// The value one.
    pub fn one() -> (r: Dec128)
        ensures
            r@ == unit(),
    {
        Dec128 { atomics: ATOMICS_PER_UNIT }
    }

    /// The value with the given count of atomic units.
    pub fn raw(atomics: u128) -> (r: Dec128)
        ensures
            r@ == atomics,
    {
        Dec128 { atomics }
    }

    /// A whole number of units.
    pub fn from_u64(x: u64) -> (r: Dec128)
        ensures
            r@ == x * unit(),
    {
        Dec128 { atomics: (x as u128) * ATOMICS_PER_UNIT }
    }

    /// Whether the value is zero.
    pub fn is_zero(&self) -> (r: bool)
        ensures
            r <==> self@ == 0,
    {
        self.atomics == 0
    }

    /// Strict comparison.
    pub fn lt(&self, rhs: &Dec128) -> (r: bool)
        ensures
            r <==> self@ < rhs@,
    {
        self.atomics < rhs.atomics
    }

    /// Non-strict comparison.
    pub fn le(&self, rhs: &Dec128) -> (r: bool)
        ensures
            r <==> self@ <= rhs@,
    {
        self.atomics <= rhs.atomics
    }

    /// The same value over a 256-bit magnitude.
    pub fn to_dec256(&self) -> (r: Dec256)
        ensures
            r@ == self@,
    {
        Dec256::raw(self.atomics)
    }

    /// Checked addition: exact on atomic units.
    pub fn checked_add(&self, rhs: &Dec128) -> (r: Option<Dec128>)
        ensures
            match r {
                Some(v) => self@ + rhs@ < limb_base() && v@ == self@ + rhs@,
                None => self@ + rhs@ >= limb_base(),
            },
    {
        match self.atomics.checked_add(rhs.atomics) {
            Some(v) => Some(Dec128 { atomics: v }),
            None => None,
        }
    }

    /// Checked subtraction: exact on atomic units.
    pub fn checked_sub(&self, rhs: &Dec128) -> (r: Option<Dec128>)
        ensures
            match r {
                Some(v) => self@ >= rhs@ && v@ == self@ - rhs@,
                None => self@ < rhs@,
            },
    {
        match self.atomics.checked_sub(rhs.atomics) {
            Some(v) => Some(Dec128 { atomics: v }),
            None => None,
        }
    }

    /// Checked product: [`dmul`] on atomic units, `None` past 128 bits.
    pub fn checked_mul(&self, rhs: &Dec128) -> (r: Option<Dec128>)
        ensures
            match r {
                Some(v) => dmul(self@, rhs@) < limb_base() && v@ == dmul(self@, rhs@),
                None => dmul(self@, rhs@) >= limb_base(),
            },
    {
        let wide = full_mul_u128(self.atomics, rhs.atomics);
        let quotient = wide.checked_div(&U256::from_u128(ATOMICS_PER_UNIT)).unwrap();
        match quotient.try_into_u128() {
            Some(v) => Some(Dec128 { atomics: v }),
            None => None,
        }
    }

    /// Checked product with a plain 128-bit integer, floored to an integer:
    /// `floor(self * rhs)`.
    pub fn checked_mul_uint128(&self, rhs: u128) -> (r: Option<u128>)
        ensures
            match r {
                Some(v) => dmul(self@, rhs as int) < limb_base() && v == dmul(self@, rhs as int),
                None => dmul(self@, rhs as int) >= limb_base(),
            },
    {
        let wide = full_mul_u128(self.atomics, rhs);
        let quotient = wide.checked_div(&U256::from_u128(ATOMICS_PER_UNIT)).unwrap();
        quotient.try_into_u128()
    }

    /// Checked quotient: [`ddiv`] on atomic units, with the divide-by-zero
    /// and overflow errors.
    pub fn checked_div(&self, rhs: &Dec128) -> (r: Result<Dec128, MathError>)
        ensures
            match r {
                Ok(v) => rhs@ != 0 && ddiv(self@, rhs@) < limb_base() && v@ == ddiv(self@, rhs@),
                Err(e) => if rhs@ == 0 {
                    e == MathError::DivideByZero
                } else {
                    ddiv(self@, rhs@) >= limb_base() && e == MathError::Overflow
                },
            },
    {
        if rhs.atomics == 0 {
            return Err(MathError::DivideByZero);
        }
        let wide = full_mul_u128(self.atomics, ATOMICS_PER_UNIT);
        let quotient = wide.checked_div(&U256::from_u128(rhs.atomics)).unwrap();
        match quotient.try_into_u128() {
            Some(v) => Ok(Dec128 { atomics: v }),
            None => Err(MathError::Overflow),
        }
    }
}

} // verus!
