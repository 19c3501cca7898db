use vstd::prelude::*;

verus! {

/// Failure modes of the numeric layer and of the Newton solvers.
///
/// Every verified function in this crate is panic-free: arithmetic that
/// would otherwise abort (overflow, division by zero) is performed with
/// checked operations and surfaces here instead.
#[derive(Clone, Copy, Debug, PartialEq, Eq)]
pub enum MathError {
    /// A 256-bit (or 128-bit) magnitude was exceeded.
    Overflow,
    /// A divisor was zero.
    DivideByZero,
    /// A 256-bit result did not fit the caller's 128-bit output type.
    ConversionOverflow,
    /// A signed decimal with a strictly negative value was converted
    /// to an unsigned one.
    Negative,
    /// The iteration for the concentrated invariant `D` did not settle
    /// within the iteration limit.
    NewtonDNotConverging,
    /// The iteration for the concentrated post-trade reserve did not settle
    /// within the iteration limit.
    NewtonYNotConverging,
    /// The iteration for the stableswap invariant `D` did not settle
    /// within the iteration limit.
    ComputeDNotConverging,
    /// The iteration for the stableswap post-trade reserve did not settle
    /// within the iteration limit.
    YNotConverging,
}

} // verus!
