//! The single error taxonomy of the engine: arithmetic failure.
//!
//! Every fallible computation surfaces one of these codes and performs no
//! partial mutation; callers roll the whole transition back.

use vstd::prelude::*;

verus! {

/// Arithmetic failure inside a pricing computation.
#[derive(Clone, Copy, Debug, PartialEq, Eq, Structural)]
pub enum ErrorCode {
    /// A checked multiplication, addition, subtraction or cast left the
    /// range of the result type.
    MathOverflow,
    /// A divisor was zero.
    DivisionByZero,
}

} // verus!
