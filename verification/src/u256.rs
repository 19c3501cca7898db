use vstd::prelude::*;

use crate::error::MathError;
use cosmwasm_std::Isqrt;

verus! {

/// Number of atomic units in one whole unit of an 18-decimal-place
/// fixed-point value.
pub const ATOMICS_PER_UNIT: u128 = 1_000_000_000_000_000_000;

/// `2^128`, the weight of the high limb.
pub open spec fn limb_base() -> int {
    0x1_0000_0000_0000_0000_0000_0000_0000_0000int
}

/// `2^256`, the first integer a 256-bit magnitude cannot hold.
pub open spec fn lim256() -> int {
    0x1_0000_0000_0000_0000_0000_0000_0000_0000_0000_0000_0000_0000_0000_0000_0000_0000int
}

/// `10^18` as a specification-level integer.
pub open spec fn unit() -> int {
    1_000_000_000_000_000_000
}

/// Floor square root of a natural number: the unique `r` with
/// `r * r <= n < (r + 1) * (r + 1)`.
pub open spec fn floor_sqrt(n: nat) -> nat
    decreases n,
{
    if n == 0 {
        0
    } else {
        let r = floor_sqrt((n - 1) as nat) as int;
        if (r + 1) * (r + 1) <= n {
            (r + 1) as nat
        } else {
            r as nat
        }
    }
}

/// An unsigned 256-bit integer held as two 128-bit limbs.
///
/// The arithmetic that needs a width beyond 128 bits is delegated to
/// `cosmwasm_std::Uint256` through the trusted functions below; everything
/// here is specified exactly over the mathematical value [`U256::view`].
#[derive(Clone, Copy, Debug, PartialEq, Eq, Hash)]
pub struct U256 {
    pub hi: u128,
    pub lo: u128,
}

impl View for U256 {
    type V = int;

    open spec fn view(&self) -> int {
        self.hi * limb_base() + self.lo
    }
}

#[verifier::external_type_specification]
#[verifier::external_body]
pub struct ExUint256(cosmwasm_std::Uint256);

/// Packs the two limbs into the outside integer type. Plumbing shared by
/// the trusted wrappers below; nothing verified calls it.
#[verifier::external_body]
fn pack(a: &U256) -> cosmwasm_std::Uint256 {
    let mut bytes = [0u8; 32];
    bytes[..16].copy_from_slice(&a.hi.to_be_bytes());
    bytes[16..].copy_from_slice(&a.lo.to_be_bytes());
    cosmwasm_std::Uint256::from_be_bytes(bytes)
}

/// Splits the outside integer type back into limbs. Plumbing shared by
/// the trusted wrappers below; nothing verified calls it.
#[verifier::external_body]
fn unpack(u: cosmwasm_std::Uint256) -> U256 {
    let bytes = u.to_be_bytes();
    let mut hi = [0u8; 16];
    let mut lo = [0u8; 16];
    hi.copy_from_slice(&bytes[..16]);
    lo.copy_from_slice(&bytes[16..]);
    U256 { hi: u128::from_be_bytes(hi), lo: u128::from_be_bytes(lo) }
}

impl U256 {
    /// The zero value.
    pub fn zero() -> (r: U256)
        ensures
            r@ == 0,
    {
        U256 { hi: 0, lo: 0 }
    }

    /// Embeds a 128-bit value.
    pub fn from_u128(x: u128) -> (r: U256)
        ensures
            r@ == x,
    {
        U256 { hi: 0, lo: x }
    }

    /// Whether the value is zero.
    pub fn is_zero(&self) -> (r: bool)
        ensures
            r <==> self@ == 0,
    {
        self.hi == 0 && self.lo == 0
    }

    /// Narrows back to 128 bits where the value fits.
    pub fn try_into_u128(&self) -> (r: Option<u128>)
        ensures
            self@ < limb_base() ==> r == Some(self.lo),
            self@ >= limb_base() ==> r is None,
    {
        if self.hi == 0 {
            Some(self.lo)
        } else {
            None
        }
    }

    /// Strict comparison by limbs.
    pub fn lt(&self, rhs: &U256) -> (r: bool)
        ensures
            r <==> self@ < rhs@,
    {
        self.hi < rhs.hi || (self.hi == rhs.hi && self.lo < rhs.lo)
    }

    /// Non-strict comparison by limbs.
    pub fn le(&self, rhs: &U256) -> (r: bool)
        ensures
            r <==> self@ <= rhs@,
    {
        self.hi < rhs.hi || (self.hi == rhs.hi && self.lo <= rhs.lo)
    }

    /// Relies on `cosmwasm_std::Uint256::checked_add`: the exact sum, or an
    /// error when it exceeds 256 bits.
    #[verifier::external_body]
    pub fn checked_add(&self, rhs: &U256) -> (r: Option<U256>)
        ensures
            match r {
                Some(v) => self@ + rhs@ < lim256() && v@ == self@ + rhs@,
                None => self@ + rhs@ >= lim256(),
            },
    {
        pack(self).checked_add(pack(rhs)).ok().map(unpack)
    }

    /// Relies on `cosmwasm_std::Uint256::checked_sub`: the exact difference,
    /// or an error when the subtrahend is larger.
    #[verifier::external_body]
    pub fn checked_sub(&self, rhs: &U256) -> (r: Option<U256>)
        ensures
            match r {
                Some(v) => self@ >= rhs@ && v@ == self@ - rhs@,
                None => self@ < rhs@,
            },
    {
        pack(self).checked_sub(pack(rhs)).ok().map(unpack)
    }

    /// Relies on `cosmwasm_std::Uint256::checked_multiply_ratio`: the floored
    /// `self * numerator / denominator`, computed through a 512-bit
    /// intermediate, with the documented divide-by-zero and overflow errors.
    #[verifier::external_body]
    pub fn checked_multiply_ratio(&self, numerator: &U256, denominator: &U256) -> (r: Result<
        U256,
        MathError,
    >)
        ensures
            match r {
                Ok(v) => denominator@ != 0 && (self@ * numerator@) / denominator@ < lim256() && v@
                    == (self@ * numerator@) / denominator@,
                Err(e) => if denominator@ == 0 {
                    e == MathError::DivideByZero
                } else {
                    (self@ * numerator@) / denominator@ >= lim256() && e == MathError::Overflow
                },
            },
    {
        match pack(self).checked_multiply_ratio(pack(numerator), pack(denominator)) {
            Ok(v) => Ok(unpack(v)),
            Err(cosmwasm_std::CheckedMultiplyRatioError::DivideByZero) => Err(
                MathError::DivideByZero,
            ),
            Err(cosmwasm_std::CheckedMultiplyRatioError::Overflow) => Err(MathError::Overflow),
        }
    }

    /// Relies on `cosmwasm_std::Uint256::checked_div`: floored division,
    /// or an error on a zero divisor.
    #[verifier::external_body]
    pub fn checked_div(&self, rhs: &U256) -> (r: Option<U256>)
        ensures
            match r {
                Some(v) => rhs@ != 0 && v@ == self@ / rhs@,
                None => rhs@ == 0,
            },
    {
        pack(self).checked_div(pack(rhs)).ok().map(unpack)
    }

    /// Relies on `cosmwasm_std::Uint256::isqrt`: the integer square root,
    /// rounded down.
    #[verifier::external_body]
    pub fn isqrt(&self) -> (r: U256)
        ensures
            r@ == floor_sqrt(self@ as nat),
    {
        unpack(pack(self).isqrt())
    }
}

/// Relies on `cosmwasm_std::Uint128::full_mul`: the exact 256-bit product
/// of two 128-bit values.
#[verifier::external_body]
pub fn full_mul_u128(a: u128, b: u128) -> (r: U256)
    ensures
        r@ == a * b,
{
    unpack(cosmwasm_std::Uint128::new(a).full_mul(b))
}

} // verus!
