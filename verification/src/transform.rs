//! The expression transform: a compiled expression in `x`, bound to a vector
//! that it owns and rewrites in place, one element after the other.

use vstd::prelude::*;
use crate::engine::{expression_names, only_x, CompiledExpression};
use crate::error::TransformError;
use crate::vector::NumericVector;

verus! {

/// Whether `evaluate`, asked for the value of `program` at `x`, may answer
/// with the value `y`.
pub open spec fn yields<F: Fn(&CompiledExpression, u64) -> Result<u64, fasteval::Error>>(
    evaluate: F,
    program: CompiledExpression,
    x: u64,
    y: u64,
) -> bool {
    call_ensures(evaluate, (&program, x), Ok::<u64, fasteval::Error>(y))
}

/// Whether `evaluate`, asked for the value of `program` at `x`, may report a
/// failure.
pub open spec fn fails<F: Fn(&CompiledExpression, u64) -> Result<u64, fasteval::Error>>(
    evaluate: F,
    program: CompiledExpression,
    x: u64,
) -> bool {
    exists|e: fasteval::Error| call_ensures(evaluate, (&program, x), Err::<u64, fasteval::Error>(e))
}

/// Whether `after` is `before` with its first `k` elements rewritten: each of
/// them is an answer of `evaluate` to the element that stood there, and every
/// later element is untouched.
pub open spec fn rewritten<F: Fn(&CompiledExpression, u64) -> Result<u64, fasteval::Error>>(
    evaluate: F,
    program: CompiledExpression,
    before: Seq<u64>,
    after: Seq<u64>,
    k: int,
) -> bool {
    &&& after.len() == before.len()
    &&& forall|i: int| 0 <= i < k && i < before.len() ==> yields(evaluate, program, before[i], #[trigger] after[i])
    &&& forall|i: int| k <= i < before.len() ==> #[trigger] after[i] == before[i]
}

/// A compiled expression together with the vector that it transforms.
///
/// The transform owns its vector: it is built from a snapshot and shares
/// nothing with the vector the snapshot was taken of.
pub struct ExpressionTransform {
    program: CompiledExpression,
    vec: NumericVector,
}

impl View for ExpressionTransform {
    type V = Seq<u64>;

    /// The elements of the owned vector.
    closed spec fn view(&self) -> Seq<u64> {
        self.vec@
    }
}

impl ExpressionTransform {
    /// The compiled expression, which no operation changes.
    pub closed spec fn program(&self) -> CompiledExpression {
        self.program
    }

    /// Compiles `text` and binds it to `vec`.
    ///
    /// A text that the engine's parser rejects is an `ExpressionSyntaxError`.
    /// One that it accepts gives a transform where it names nothing but `x`,
    /// and is an `UnknownVariable` where it names anything else. The vector
    /// is only stored: no element is evaluated yet.
    pub fn new(text: &str, vec: NumericVector) -> (r: Result<ExpressionTransform, TransformError>)
        ensures
            match r {
                Ok(t) => t.program().text() == text@ && only_x(expression_names(text@)) && t@
                    == vec@,
                Err(e) => e == TransformError::ExpressionSyntaxError || (e
                    == TransformError::UnknownVariable && !only_x(expression_names(text@))),
            },
    {
        match CompiledExpression::compile(text) {
            Ok(program) => Ok(ExpressionTransform { program, vec }),
            Err(e) => Err(e),
        }
    }

    /// Rewrites every element of the owned vector, in index order, with what
    /// `evaluate` answers for the compiled expression at that element, and
    /// returns a copy of the rewritten vector.
    ///
    /// The pass stops at the first element for which `evaluate` reports a
    /// failure. That is an `EvaluationError`; the elements before it stay
    /// rewritten, it and the elements after it stay as they were.
    pub fn eval<F: Fn(&CompiledExpression, u64) -> Result<u64, fasteval::Error>>(
        &mut self,
        evaluate: F,
    ) -> (r: Result<NumericVector, TransformError>)
        requires
            forall|x: u64| call_requires(evaluate, (&old(self).program(), x)),
        ensures
            final(self).program() == old(self).program(),
            match r {
                Ok(v) => v@ == final(self)@ && rewritten(
                    evaluate,
                    old(self).program(),
                    old(self)@,
                    final(self)@,
                    old(self)@.len() as int,
                ),
                Err(e) => e == TransformError::EvaluationError && exists|k: int|
                    0 <= k < old(self)@.len() && #[trigger] rewritten(
                        evaluate,
                        old(self).program(),
                        old(self)@,
                        final(self)@,
                        k,
                    ) && fails(evaluate, old(self).program(), old(self)@[k]),
            },
    {
        let ghost before = self.vec@;
        let n = self.vec.len();
        let mut i: usize = 0;
        while i < n
            invariant
                i <= n,
                n == before.len(),
                before == old(self)@,
                self.program == old(self).program,
                forall|x: u64| call_requires(evaluate, (&old(self).program(), x)),
                rewritten(evaluate, old(self).program(), before, self.vec@, i as int),
            decreases n - i,
        {
            let x = self.vec.get(i);
            match evaluate(&self.program, x) {
                Ok(y) => {
                    self.vec.set(i, y);
                },
                Err(e) => {
                    assert(call_ensures(
                        evaluate,
                        (&old(self).program(), before[i as int]),
                        Err::<u64, fasteval::Error>(e),
                    ));
                    assert(rewritten(evaluate, old(self).program(), old(self)@, self@, i as int));
                    return Err(TransformError::EvaluationError);
                },
            }
            i = i + 1;
        }
        Ok(self.vec.clone())
    }

    /// An independent copy of the owned vector as it stands now.
    pub fn snapshot(&self) -> (v: NumericVector)
        ensures
            v@ == self@,
    {
        self.vec.clone()
    }
}

} // verus!
