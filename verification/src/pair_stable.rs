//! Stableswap pair: integer amplification ramp, the stableswap invariant
//! solver, and the swap / provide / withdraw kernels.

pub mod consts;
pub mod error;
pub mod state;
pub mod math;
pub mod swap;
pub mod provide;
pub mod withdraw;
