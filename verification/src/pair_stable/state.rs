use vstd::prelude::*;

use crate::error::MathError;

verus! {

/// The integer amplification ramp: linear interpolation between
/// `init_amp` at `init_amp_time` and `next_amp` at `next_amp_time`,
/// computed over non-negative integers (the up-ramp and the down-ramp are
/// handled separately so that intermediates never go negative), and clamped
/// to `next_amp` at or past `next_amp_time`. A ramp window of zero width
/// observed before its end is a division by zero.
pub open spec fn current_amp_spec(
    block_time: int,
    init_amp_time: int,
    init_amp: int,
    next_amp_time: int,
    next_amp: int,
) -> Result<int, MathError> {
    if block_time < next_amp_time {
        let elapsed = if block_time >= init_amp_time {
            block_time - init_amp_time
        } else {
            0
        };
        let time_range = if next_amp_time >= init_amp_time {
            next_amp_time - init_amp_time
        } else {
            0
        };
        if time_range == 0 {
            Err(MathError::DivideByZero)
        } else if next_amp > init_amp {
            Ok(init_amp + ((next_amp - init_amp) * elapsed) / time_range)
        } else {
            Ok(init_amp - ((init_amp - next_amp) * elapsed) / time_range)
        }
    } else {
        Ok(next_amp)
    }
}

/// Compute the current pool amplification coefficient; the result is pinned
/// to [`current_amp_spec`].
pub fn compute_current_amp(
    block_time: u64,
    init_amp_time: u64,
    init_amp: u64,
    next_amp_time: u64,
    next_amp: u64,
) -> (r: Result<u64, MathError>)
    ensures
        match r {
            Ok(v) => current_amp_spec(
                block_time as int,
                init_amp_time as int,
                init_amp as int,
                next_amp_time as int,
                next_amp as int,
            ) == Ok::<int, MathError>(v as int),
            Err(e) => current_amp_spec(
                block_time as int,
                init_amp_time as int,
                init_amp as int,
                next_amp_time as int,
                next_amp as int,
            ) == Err::<int, MathError>(e),
        },
{
    if block_time < next_amp_time {
        let elapsed: u128 = if block_time >= init_amp_time {
            (block_time - init_amp_time) as u128
        } else {
            0
        };
        let time_range: u128 = if next_amp_time >= init_amp_time {
            (next_amp_time - init_amp_time) as u128
        } else {
            0
        };
        if time_range == 0 {
            return Err(MathError::DivideByZero);
        }
        proof {
            assert(elapsed <= time_range);
            assert(elapsed < 0x1_0000_0000_0000_0000);
        }
        if next_amp > init_amp {
            let amp_range: u128 = (next_amp - init_amp) as u128;
            proof {
                lemma_u64_product_fits(amp_range as int, elapsed as int);
            }
            let quot: u128 = (amp_range * elapsed) / time_range;
            proof {
                lemma_scaled_fraction_bound(amp_range as int, elapsed as int, time_range as int);
            }
            Ok(init_amp + (quot as u64))
        } else {
            let amp_range: u128 = (init_amp - next_amp) as u128;
            proof {
                lemma_u64_product_fits(amp_range as int, elapsed as int);
            }
            let quot: u128 = (amp_range * elapsed) / time_range;
            proof {
                lemma_scaled_fraction_bound(amp_range as int, elapsed as int, time_range as int);
            }
            Ok(init_amp - (quot as u64))
        }
    } else {
        Ok(next_amp)
    }
}

/// The product of two values below `2^64` fits in 128 bits.
proof fn lemma_u64_product_fits(a: int, b: int)
    requires
        0 <= a < 0x1_0000_0000_0000_0000,
        0 <= b < 0x1_0000_0000_0000_0000,
    ensures
        a * b <= u128::MAX,
{
    assert(a * b < 0x1_0000_0000_0000_0000 * 0x1_0000_0000_0000_0000) by (nonlinear_arith)
        requires
            0 <= a < 0x1_0000_0000_0000_0000,
            0 <= b < 0x1_0000_0000_0000_0000,
    ;
}

/// `(x * e) / r <= x` for `e <= r`: a fraction of `x` never exceeds `x`.
proof fn lemma_scaled_fraction_bound(x: int, e: int, r: int)
    requires
        0 <= x,
        0 <= e <= r,
        0 < r,
    ensures
        0 <= (x * e) / r <= x,
{
    vstd::arithmetic::mul::lemma_mul_inequality(e, r, x);
    assert(e * x == x * e) by (nonlinear_arith);
    assert(r * x == x * r) by (nonlinear_arith);
    vstd::arithmetic::div_mod::lemma_div_is_ordered(x * e, x * r, r);
    vstd::arithmetic::div_mod::lemma_div_multiples_vanish(x, r);
    assert((r * x) / r == (x * r) / r);
    vstd::arithmetic::div_mod::lemma_div_pos_is_pos(x * e, r);
    assert(x * e >= 0) by (nonlinear_arith)
        requires
            x >= 0,
            e >= 0,
    ;
}

/// The largest precision among the assets' native precisions; zero for an
/// empty list.
pub fn greatest_precision(precisions: &[u8]) -> (r: u8)
    ensures
        forall|i: int| 0 <= i < precisions@.len() ==> precisions@[i] <= r,
        precisions@.len() == 0 ==> r == 0,
        precisions@.len() > 0 ==> exists|i: int|
            0 <= i < precisions@.len() && precisions@[i] == r,
{
    let mut m: u8 = 0;
    let mut i: usize = 0;
    while i < precisions.len()
        invariant
            i <= precisions@.len(),
            forall|j: int| 0 <= j < i ==> precisions@[j] <= m,
            i == 0 ==> m == 0,
            i > 0 ==> exists|j: int| 0 <= j < i && precisions@[j] == m,
        decreases precisions@.len() - i,
    {
        if precisions[i] > m {
            m = precisions[i];
        }
        i = i + 1;
    }
    m
}

} // verus!
