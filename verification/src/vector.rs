//! The numeric vector: an owned, ordered, growable sequence of doubles, each
//! kept as its IEEE-754 bit pattern.

use vstd::prelude::*;
use crate::error::VectorError;

verus! {

/// How many steps a slice takes after its first index.
pub open spec fn slice_steps(min: int, max: int, step: int) -> int {
    if min == max {
        0
    } else if min < max {
        (max - min) / step
    } else {
        (min - max) / step
    }
}

/// The source position of the `k`-th element of a slice: the bounds are walked
/// upwards from `min` when `min <= max`, downwards otherwise.
pub open spec fn slice_index(min: int, max: int, step: int, k: int) -> int {
    if min <= max {
        min + k * step
    } else {
        min - k * step
    }
}

/// The last source position that a slice includes.
pub open spec fn slice_last(min: int, max: int, step: int) -> int {
    slice_index(min, max, step, slice_steps(min, max, step))
}

/// Whether a slice of a vector of length `len` exists.
///
/// Walking upwards, every included position must lie below `len`. Walking
/// downwards, the first position must lie below `len`, and the step taken
/// after the last included position must not fall below zero.
pub open spec fn slice_defined(len: int, min: int, max: int, step: int) -> bool {
    if min <= max {
        slice_last(min, max, step) < len
    } else {
        min < len && slice_last(min, max, step) >= step
    }
}

/// The elements of `s` at the positions that a slice includes, in the order in
/// which the slice walks them.
pub open spec fn slice_spec(s: Seq<u64>, min: int, max: int, step: int) -> Seq<u64> {
    Seq::new(
        (slice_steps(min, max, step) + 1) as nat,
        |k: int| s[slice_index(min, max, step, k)],
    )
}

/// `Vec::capacity` of the standard library: how many elements the vector can
/// hold without reallocating. Its documentation promises that this is never
/// less than the length; which larger value it is, the allocator decides.
#[verifier::external_body]
fn vec_capacity(v: &Vec<u64>) -> (c: usize)
    ensures
        c >= v@.len(),
{
    v.capacity()
}

/// An owned, growable sequence of doubles in insertion order. Each element is
/// the bit pattern of the double it stands for.
#[derive(Debug, PartialEq, Eq)]
pub struct NumericVector {
    data: Vec<u64>,
}

impl View for NumericVector {
    type V = Seq<u64>;

    closed spec fn view(&self) -> Seq<u64> {
        self.data@
    }
}

impl Clone for NumericVector {
    /// An independent copy: same elements, same order, no shared storage.
    fn clone(&self) -> (v: NumericVector)
        ensures
            v@ == self@,
    {
        NumericVector { data: self.data.clone() }
    }
}

impl NumericVector {
    /// An empty vector.
    pub fn new() -> (v: NumericVector)
        ensures
            v@ == Seq::<u64>::empty(),
    {
        NumericVector { data: Vec::new() }
    }

    /// The vector that holds `data`, in the same order.
    pub fn from_vec(data: Vec<u64>) -> (v: NumericVector)
        ensures
            v@ == data@,
    {
        NumericVector { data }
    }

    /// The number of elements.
    pub fn len(&self) -> (n: usize)
        ensures
            n == self@.len(),
    {
        self.data.len()
    }

    /// Appends `value` at the end.
    pub fn push(&mut self, value: u64)
        ensures
            final(self)@ == old(self)@.push(value),
    {
        self.data.push(value);
    }

    /// Removes the last element and returns it. An empty vector stays empty
    /// and reports `EmptyCollection`.
    pub fn pop(&mut self) -> (r: Result<u64, VectorError>)
        ensures
            old(self)@.len() > 0 ==> r == Ok::<u64, VectorError>(old(self)@.last())
                && final(self)@ == old(self)@.drop_last(),
            old(self)@.len() == 0 ==> r == Err::<u64, VectorError>(VectorError::EmptyCollection)
                && final(self)@ == old(self)@,
    {
        match self.data.pop() {
            Some(value) => Ok(value),
            None => Err(VectorError::EmptyCollection),
        }
    }

    /// Asks for room for `additional` more elements. The contents never
    /// change; where the allocator cannot grant the room, nothing happens.
    pub fn reserve(&mut self, additional: usize)
        ensures
            final(self)@ == old(self)@,
    {
        let _ = self.data.try_reserve(additional);
    }

    /// The number of elements the vector can hold before it has to grow.
    pub fn capacity(&self) -> (c: usize)
        ensures
            c >= self@.len(),
    {
        vec_capacity(&self.data)
    }

    /// The element at a position that is known to exist.
    pub(crate) fn get(&self, index: usize) -> (value: u64)
        requires
            index < self@.len(),
        ensures
            value == self@[index as int],
    {
        self.data[index]
    }

    /// Overwrites the element at position `index`.
    pub(crate) fn set(&mut self, index: usize, value: u64)
        requires
            index < old(self)@.len(),
        ensures
            final(self)@ == old(self)@.update(index as int, value),
    {
        self.data[index] = value;
    }

    /// A new vector: the elements of `self` followed by those of `other`.
    pub fn concat(&self, other: &NumericVector) -> (v: NumericVector)
        ensures
            v@ == self@ + other@,
    {
        let mut out = NumericVector::new();
        let mut i: usize = 0;
        while i < self.data.len()
            invariant
                i <= self@.len(),
                out@ == self@.take(i as int),
            decreases self@.len() - i,
        {
            out.push(self.data[i]);
            i = i + 1;
        }
        let mut j: usize = 0;
        while j < other.data.len()
            invariant
                j <= other@.len(),
                out@ == self@ + other@.take(j as int),
            decreases other@.len() - j,
        {
            out.push(other.data[j]);
            j = j + 1;
        }
        out
    }

    /// The element at position `index`, counted from zero.
    pub fn index(&self, index: usize) -> (r: Result<u64, VectorError>)
        ensures
            index < self@.len() ==> r == Ok::<u64, VectorError>(self@[index as int]),
            index >= self@.len() ==> r == Err::<u64, VectorError>(VectorError::IndexOutOfRange),
    {
        if index < self.data.len() {
            Ok(self.data[index])
        } else {
            Err(VectorError::IndexOutOfRange)
        }
    }

    /// A new vector of the elements at positions `min`, `min ± step`, … up to
    /// and including `max` where the walk meets it. The walk goes upwards when
    /// `min < max` and downwards when `min > max`; with `min == max` the slice
    /// is the single element at `min`, whatever the step.
    ///
    /// A step of zero between different bounds names no slice: the walk would
    /// never leave `min`.
    pub fn slice(&self, min: usize, max: usize, step: usize) -> (r: Result<NumericVector, VectorError>)
        requires
            min != max ==> step > 0,
        ensures
            match r {
                Ok(v) => slice_defined(self@.len() as int, min as int, max as int, step as int)
                    && v@ == slice_spec(self@, min as int, max as int, step as int),
                Err(e) => e == VectorError::IndexOutOfRange
                    && !slice_defined(self@.len() as int, min as int, max as int, step as int),
            },
    {
        let len = self.data.len();
        let ascending = min <= max;
        let steps: usize = if min == max {
            0
        } else if ascending {
            (max - min) / step
        } else {
            (min - max) / step
        };
        proof {
            if min < max {
                assert(((max - min) / (step as int)) * step <= max - min) by (nonlinear_arith)
                    requires
                        step > 0,
                        max - min >= 0,
                ;
            } else if min > max {
                assert(((min - max) / (step as int)) * step <= min - max) by (nonlinear_arith)
                    requires
                        step > 0,
                        min - max >= 0,
                ;
            }
            assert(steps <= steps * step || min == max) by (nonlinear_arith)
                requires
                    min != max ==> step > 0,
            ;
        }
        let span: usize = steps * step;
        let last: usize = if ascending {
            min + span
        } else {
            min - span
        };
        assert(last == slice_last(min as int, max as int, step as int));
        if ascending {
            if last >= len {
                return Err(VectorError::IndexOutOfRange);
            }
        } else {
            if min >= len || last < step {
                return Err(VectorError::IndexOutOfRange);
            }
        }
        let mut out = NumericVector::new();
        let mut i: usize = min;
        let mut k: usize = 0;
        out.push(self.data[i]);
        while k < steps
            invariant
                min != max ==> step > 0,
                ascending == (min <= max),
                k <= steps,
                steps == slice_steps(min as int, max as int, step as int),
                last == slice_last(min as int, max as int, step as int),
                i == slice_index(min as int, max as int, step as int, k as int),
                ascending ==> last < len,
                !ascending ==> min < len && last >= step,
                len == self@.len(),
                out@ == Seq::new(
                    (k + 1) as nat,
                    |j: int| self@[slice_index(min as int, max as int, step as int, j)],
                ),
            decreases steps - k,
        {
            proof {
                assert((k + 1) * step == k * step + step) by (nonlinear_arith);
                assert((k + 1) * step <= steps * step) by (nonlinear_arith)
                    requires
                        k + 1 <= steps,
                        step >= 0,
                ;
            }
            if ascending {
                i = i + step;
            } else {
                i = i - step;
            }
            k = k + 1;
            out.push(self.data[i]);
        }
        Ok(out)
    }
}

} // verus!
