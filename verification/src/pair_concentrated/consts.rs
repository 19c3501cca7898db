use vstd::prelude::*;

verus! {

/// Number of coins in the pair: 2.0, in atomic units.
pub const N: u128 = 2_000_000_000_000_000_000;

/// `N^2`: 4.0, in atomic units.
pub const N_POW2: u128 = 4_000_000_000_000_000_000;

/// `N^3`: 8.0, in atomic units.
pub const N_POW3: u128 = 8_000_000_000_000_000_000;

/// Fee tolerance: if the balance coefficient `k` is at most this value it
/// is clamped to zero. 0.001, in atomic units.
pub const FEE_TOL: u128 = 1_000_000_000_000_000;

/// Newton convergence tolerance, compared against the unsigned difference
/// of successive iterates. 1e-5, in atomic units.
pub const TOL: u128 = 10_000_000_000_000;

/// Rescaling factor (1e18, held as 1e36 atomic units) that preserves
/// precision in the derivative terms when their denominators grow large.
pub const PADDING: u128 = 1_000_000_000_000_000_000_000_000_000_000_000_000;

/// Iteration limit for Newton's method.
pub const MAX_ITER: usize = 64;

} // verus!
