//! What holds between the vector operations, stated over the sequences that
//! their contracts speak of.

use vstd::prelude::*;
use crate::vector::{slice_defined, slice_last, slice_spec, slice_steps};

verus! {

/// An ascending slice between two valid positions exists and has
/// `(max - min) / step + 1` elements. Its first element is the one at `min`;
/// where `step` divides `max - min`, its last element is the one at `max`.
pub proof fn law_ascending_slice(s: Seq<u64>, min: int, max: int, step: int)
    requires
        0 <= min <= max < s.len(),
        step > 0,
    ensures
        slice_defined(s.len() as int, min, max, step),
        slice_spec(s, min, max, step).len() == (max - min) / step + 1,
        slice_spec(s, min, max, step).first() == s[min],
        (max - min) % step == 0 ==> slice_spec(s, min, max, step).last() == s[max],
{
    let steps = slice_steps(min, max, step);
    assert(steps == (max - min) / step);
    assert(0 <= steps * step <= max - min && ((max - min) % step == 0 ==> steps * step == max - min))
        by (nonlinear_arith)
        requires
            steps == (max - min) / step,
            max - min >= 0,
            step > 0,
    ;
    assert(steps >= 0) by (nonlinear_arith)
        requires
            steps == (max - min) / step,
            max - min >= 0,
            step > 0,
    ;
    assert(slice_last(min, max, step) == min + steps * step);
}

/// Concatenating `a` and `b` and then slicing from position 0 to the last
/// position of `a`, one step at a time, gives `a` back. It holds for every
/// `a` that has a last position, that is for every `a` but the empty one.
pub proof fn law_concat_then_slice(a: Seq<u64>, b: Seq<u64>)
    requires
        a.len() > 0,
    ensures
        slice_defined((a + b).len() as int, 0, a.len() - 1, 1),
        slice_spec(a + b, 0, a.len() - 1, 1) == a,
{
    assert(slice_steps(0, a.len() - 1, 1) == a.len() - 1);
    assert(slice_spec(a + b, 0, a.len() - 1, 1) =~= a);
}

/// Popping after a push undoes it: the vector has an element to give, the
/// element is the one that was pushed, and what remains is the vector as it
/// was before the push.
pub proof fn law_push_then_pop(v: Seq<u64>, x: u64)
    ensures
        v.push(x).len() == v.len() + 1,
        v.push(x).last() == x,
        v.push(x).drop_last() == v,
{
    assert(v.push(x).drop_last() =~= v);
}

} // verus!
