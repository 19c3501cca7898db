//! Pure-function simulation of automated-market-maker pool operations
//! (swap, provide and withdraw) for three pricing curves: constant-product,
//! stableswap with a slow amplification ramp, and concentrated liquidity
//! with a dynamic fee and price scale.
//!
//! All money-like quantities are unsigned fixed-point decimals with 18
//! fractional digits over a 256-bit magnitude. The 256-bit integer
//! arithmetic itself is delegated to `cosmwasm_std` behind a handful of
//! trusted wrappers in [`u256`]; everything built on top of it — the
//! fixed-point layers, the signed-decimal layer, the Newton solvers for the
//! pool invariants, the fee and ramp formulas, and the operation kernels —
//! is verified against exact integer-level contracts.

pub mod error;
pub mod u256;
pub mod dec256;
pub mod dec128;
pub mod pair_concentrated;
pub mod pair_stable;
pub mod pair_xyk;
