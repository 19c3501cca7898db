use vstd::prelude::*;

use crate::dec128::Dec128;
use crate::dec256::{ddiv, dmul};
use crate::error::MathError;
use crate::u256::limb_base;

verus! {

/// Outcome of a withdrawal preview.
#[derive(Clone, Debug, PartialEq, Eq)]
pub struct SimulationResponse {
    /// The amount of assets returned by the withdrawal.
    pub returned_amounts: Vec<u128>,
}

/// The refunds for one share ratio: each reserve scaled by the ratio and
/// floored, in order; a product past 128 bits is an overflow.
pub open spec fn refunds_spec(xs: Seq<u128>, ratio: int) -> Result<Seq<u128>, MathError>
    decreases xs.len(),
{
    if xs.len() == 0 {
        Ok(Seq::<u128>::empty())
    } else {
        match refunds_spec(xs.drop_last(), ratio) {
            Err(e) => Err(e),
            Ok(rest) => if dmul(xs.last() as int, ratio) >= limb_base() {
                Err(MathError::Overflow)
            } else {
                Ok(rest.push(dmul(xs.last() as int, ratio) as u128))
            },
        }
    }
}

/// Proportional withdrawal: the share ratio is `amount / total_share`
/// (zero when the supply is zero), and each reserve refunds its scaled,
/// floored part.
pub open spec fn compute_withdraw_spec(amount: int, xs: Seq<u128>, total_share: int) -> Result<
    Seq<u128>,
    MathError,
> {
    if total_share != 0 && ddiv(amount, total_share) >= limb_base() {
        Err(MathError::Overflow)
    } else {
        let ratio = if total_share == 0 {
            0
        } else {
            ddiv(amount, total_share)
        };
        refunds_spec(xs, ratio)
    }
}

/// The withdrawal kernel; the result is pinned to
/// [`compute_withdraw_spec`].
pub fn compute_withdraw(amount: u128, asset_amounts: &[u128], total_share: u128) -> (r: Result<
    Vec<u128>,
    MathError,
>)
    ensures
        match r {
            Ok(v) => compute_withdraw_spec(amount as int, asset_amounts@, total_share as int)
                == Ok::<Seq<u128>, MathError>(v@),
            Err(e) => compute_withdraw_spec(amount as int, asset_amounts@, total_share as int)
                == Err::<Seq<u128>, MathError>(e),
        },
{
    let share_ratio: Dec128;
    if total_share != 0 {
        share_ratio = match Dec128::raw(amount).checked_div(&Dec128::raw(total_share)) {
            Ok(v) => v,
            Err(e) => {
                return Err(e);
            },
        };
    } else {
        share_ratio = Dec128::zero();
    }
    let mut refund_assets: Vec<u128> = Vec::new();
    let mut i: usize = 0;
    while i < asset_amounts.len()
        invariant
            i <= asset_amounts@.len(),
            share_ratio@ == if total_share == 0 {
                0int
            } else {
                ddiv(amount as int, total_share as int)
            },
            total_share != 0 ==> ddiv(amount as int, total_share as int) < limb_base(),
            refunds_spec(asset_amounts@.take(i as int), share_ratio@) == Ok::<Seq<u128>, MathError>(
                refund_assets@,
            ),
        decreases asset_amounts@.len() - i,
    {
        let refund = match share_ratio.checked_mul_uint128(asset_amounts[i]) {
            Some(v) => v,
            None => {
                proof {
                    lemma_refunds_step(asset_amounts@, share_ratio@, i as int);
                    assert(asset_amounts@.take(i as int + 1).drop_last() =~= asset_amounts@.take(
                        i as int,
                    ));
                    lemma_refunds_prefix_error(asset_amounts@, share_ratio@, i as int + 1);
                }
                return Err(MathError::Overflow);
            },
        };
        proof {
            lemma_refunds_step(asset_amounts@, share_ratio@, i as int);
            assert(asset_amounts@.take(i as int + 1).drop_last() =~= asset_amounts@.take(i as int));
        }
        refund_assets.push(refund);
        i = i + 1;
    }
    proof {
        assert(asset_amounts@.take(asset_amounts@.len() as int) =~= asset_amounts@);
    }
    Ok(refund_assets)
}

/// Unfolding helper: the refunds of a one-longer prefix extend the refunds
/// of the prefix.
proof fn lemma_refunds_step(xs: Seq<u128>, ratio: int, i: int)
    requires
        0 <= i < xs.len(),
    ensures
        xs.take(i + 1).len() == i + 1,
        xs.take(i + 1).last() == xs[i],
{
}

/// An error of a shorter prefix propagates to the longer ones.
proof fn lemma_refunds_prefix_error(xs: Seq<u128>, ratio: int, i: int)
    requires
        0 <= i <= xs.len(),
        refunds_spec(xs.take(i), ratio) is Err,
    ensures
        refunds_spec(xs, ratio) == refunds_spec(xs.take(i), ratio),
    decreases xs.len() - i,
{
    if i == xs.len() {
        assert(xs.take(i) =~= xs);
    } else {
        assert(xs.take(i + 1).drop_last() =~= xs.take(i));
        assert(refunds_spec(xs.take(i + 1), ratio) == refunds_spec(xs.take(i), ratio));
        lemma_refunds_prefix_error(xs, ratio, i + 1);
    }
}

/// Preview of a proportional withdrawal; the refunds are pinned to
/// [`compute_withdraw_spec`].
pub fn simulate(amount: u128, asset_amounts: &[u128], total_share: u128) -> (r: Result<
    SimulationResponse,
    MathError,
>)
    ensures
        match r {
            Ok(v) => compute_withdraw_spec(amount as int, asset_amounts@, total_share as int)
                == Ok::<Seq<u128>, MathError>(v.returned_amounts@),
            Err(e) => compute_withdraw_spec(amount as int, asset_amounts@, total_share as int)
                == Err::<Seq<u128>, MathError>(e),
        },
{
    match compute_withdraw(amount, asset_amounts, total_share) {
        Ok(returned_amounts) => Ok(SimulationResponse { returned_amounts }),
        Err(e) => Err(e),
    }
}

} // verus!
