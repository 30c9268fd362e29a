//! The failures that vector and transform operations report.

use vstd::prelude::*;

verus! {

/// Why an operation on a [`crate::vector::NumericVector`] failed.
#[derive(Clone, Copy, Debug, PartialEq, Eq, Structural)]
pub enum VectorError {
    /// The last element was asked of a vector that holds none.
    EmptyCollection,
    /// A position at or beyond the length was referenced, or the index
    /// arithmetic of a descending slice fell below zero.
    IndexOutOfRange,
}

/// Why an [`crate::transform::ExpressionTransform`] could not be built or
/// could not finish a pass.
#[derive(Clone, Copy, Debug, PartialEq, Eq, Structural)]
pub enum TransformError {
    /// The text is not an expression that the engine accepts.
    ExpressionSyntaxError,
    /// The expression names a variable or function other than `x`.
    UnknownVariable,
    /// The engine reported a failure while evaluating an element.
    EvaluationError,
}

} // verus!
