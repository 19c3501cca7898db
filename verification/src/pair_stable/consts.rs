use vstd::prelude::*;

verus! {

/// Minimum initial LP share, burnt on the first provision.
pub const MINIMUM_LIQUIDITY_AMOUNT: u128 = 1_000;

/// Number of coins in the pair: 2.0, in atomic units.
pub const N_COINS: u128 = 2_000_000_000_000_000_000;

/// `N_COINS + 1`: 3.0, in atomic units.
pub const N_COINS_PLUS_ONE: u128 = 3_000_000_000_000_000_000;

/// Convergence tolerance of the stableswap iterations: 1e-6, in atomic
/// units.
pub const STABLE_TOL: u128 = 1_000_000_000_000;

/// Iteration limit for the stableswap solvers.
pub const ITERATIONS: usize = 32;

} // verus!
