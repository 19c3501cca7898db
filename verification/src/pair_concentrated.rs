//! Concentrated-liquidity pair: signed fixed-point layer, Newton solvers
//! for the invariant `D` and the post-trade reserve, parameter ramp,
//! dynamic fee, and the swap kernel.

pub mod consts;
pub mod signed_decimal;
pub mod math_decimal;
pub mod state;
pub mod math;
pub mod swap;
