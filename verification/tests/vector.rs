use numvec::error::VectorError;
use numvec::vector::NumericVector;

fn bits(values: &[f64]) -> Vec<u64> {
    values.iter().map(|v| v.to_bits()).collect()
}

fn vector(values: &[f64]) -> NumericVector {
    NumericVector::from_vec(bits(values))
}

fn floats(v: &NumericVector) -> Vec<f64> {
    (0..v.len()).map(|i| f64::from_bits(v.index(i).unwrap())).collect()
}

#[test]
fn new_vector_is_empty() {
    let v = NumericVector::new();
    assert_eq!(v.len(), 0);
    assert_eq!(floats(&v), Vec::<f64>::new());
}

#[test]
fn from_vec_keeps_elements_and_order() {
    let v = vector(&[3.5, -1.0, 0.0, 2.25]);
    assert_eq!(v.len(), 4);
    assert_eq!(floats(&v), vec![3.5, -1.0, 0.0, 2.25]);
    assert_eq!(v.index(0), Ok(3.5f64.to_bits()));
    assert_eq!(v.index(3), Ok(2.25f64.to_bits()));
}

#[test]
fn push_appends_at_the_end() {
    let mut v = vector(&[1.0, 2.0]);
    v.push(3.0f64.to_bits());
    assert_eq!(v.len(), 3);
    assert_eq!(floats(&v), vec![1.0, 2.0, 3.0]);
}

#[test]
fn pop_returns_the_last_element() {
    let mut v = vector(&[1.0, 2.0, 3.0]);
    assert_eq!(v.pop(), Ok(3.0f64.to_bits()));
    assert_eq!(floats(&v), vec![1.0, 2.0]);
    assert_eq!(v.pop(), Ok(2.0f64.to_bits()));
    assert_eq!(v.pop(), Ok(1.0f64.to_bits()));
    assert_eq!(v.len(), 0);
}

#[test]
fn pop_on_empty_vector_is_empty_collection() {
    let mut v = NumericVector::new();
    assert_eq!(v.pop(), Err(VectorError::EmptyCollection));
    assert_eq!(v.len(), 0);
}

#[test]
fn index_on_empty_vector_is_out_of_range() {
    let v = NumericVector::new();
    assert_eq!(v.index(0), Err(VectorError::IndexOutOfRange));
}

#[test]
fn index_at_length_is_out_of_range() {
    let v = vector(&[1.0, 2.0]);
    assert_eq!(v.index(1), Ok(2.0f64.to_bits()));
    assert_eq!(v.index(2), Err(VectorError::IndexOutOfRange));
    assert_eq!(v.index(usize::MAX), Err(VectorError::IndexOutOfRange));
}

#[test]
fn push_then_pop_restores_the_vector() {
    let before = vector(&[4.0, 5.0, 6.0]);
    let mut v = before.clone();
    v.push(7.5f64.to_bits());
    assert_eq!(v.len(), before.len() + 1);
    assert_eq!(v.pop(), Ok(7.5f64.to_bits()));
    assert_eq!(v, before);
}

#[test]
fn push_then_pop_on_empty_vector() {
    let mut v = NumericVector::new();
    v.push(f64::NAN.to_bits());
    assert_eq!(v.pop(), Ok(f64::NAN.to_bits()));
    assert_eq!(v, NumericVector::new());
}

#[test]
fn reserve_keeps_the_contents() {
    let mut v = vector(&[1.0, 2.0, 3.0]);
    v.reserve(100);
    assert_eq!(floats(&v), vec![1.0, 2.0, 3.0]);
    assert!(v.capacity() >= 103);
}

#[test]
fn reserve_beyond_what_can_be_allocated_does_nothing() {
    let mut v = vector(&[1.0, 2.0, 3.0]);
    v.reserve(usize::MAX);
    assert_eq!(floats(&v), vec![1.0, 2.0, 3.0]);
    assert!(v.capacity() >= 3);
}

#[test]
fn capacity_is_never_below_length() {
    let mut v = NumericVector::new();
    assert!(v.capacity() >= v.len());
    for i in 0..50 {
        v.push((i as f64).to_bits());
        assert!(v.capacity() >= v.len());
    }
    assert_eq!(v.len(), 50);
}

#[test]
fn capacity_reports_the_allocation() {
    let v = NumericVector::from_vec(Vec::with_capacity(40));
    assert_eq!(v.len(), 0);
    assert!(v.capacity() >= 40);
}

#[test]
fn concat_joins_in_order() {
    let a = vector(&[1.0, 2.0]);
    let b = vector(&[3.0, 4.0, 5.0]);
    let c = a.concat(&b);
    assert_eq!(floats(&c), vec![1.0, 2.0, 3.0, 4.0, 5.0]);
    assert_eq!(floats(&b.concat(&a)), vec![3.0, 4.0, 5.0, 1.0, 2.0]);
}

#[test]
fn concat_leaves_its_operands_alone() {
    let a = vector(&[1.0, 2.0]);
    let b = vector(&[3.0]);
    let _ = a.concat(&b);
    assert_eq!(floats(&a), vec![1.0, 2.0]);
    assert_eq!(floats(&b), vec![3.0]);
}

#[test]
fn concat_with_empty_vectors() {
    let a = vector(&[1.0, 2.0]);
    let e = NumericVector::new();
    assert_eq!(a.concat(&e), a);
    assert_eq!(e.concat(&a), a);
    assert_eq!(e.concat(&e), e);
}

#[test]
fn concat_then_slice_reproduces_the_first_operand() {
    let a = vector(&[1.5, 2.5, 3.5]);
    let b = vector(&[9.0, 8.0]);
    let c = a.concat(&b);
    assert_eq!(c.slice(0, a.len() - 1, 1), Ok(a.clone()));
    assert_eq!(floats(&a), vec![1.5, 2.5, 3.5]);
    assert_eq!(floats(&b), vec![9.0, 8.0]);
}

#[test]
fn concat_then_slice_with_a_single_element() {
    let a = vector(&[1.5]);
    let b = vector(&[9.0, 8.0]);
    assert_eq!(a.concat(&b).slice(0, a.len() - 1, 1), Ok(a));
}

#[test]
fn slice_ascending_with_step() {
    let v = vector(&[0.0, 10.0, 20.0, 30.0, 40.0, 50.0]);
    let s = v.slice(1, 5, 2).unwrap();
    assert_eq!(floats(&s), vec![10.0, 30.0, 50.0]);
}

#[test]
fn slice_ascending_counts_floor_plus_one() {
    let v = vector(&[0.0, 1.0, 2.0, 3.0, 4.0, 5.0, 6.0, 7.0, 8.0, 9.0]);
    // (9 - 2) / 3 + 1 = 3 elements; 9 - 2 is no multiple of 3, so 9 is not met
    assert_eq!(floats(&v.slice(2, 9, 3).unwrap()), vec![2.0, 5.0, 8.0]);
    // (8 - 2) / 3 + 1 = 3 elements, the last one at max
    assert_eq!(floats(&v.slice(2, 8, 3).unwrap()), vec![2.0, 5.0, 8.0]);
    // (9 - 0) / 1 + 1 = 10 elements
    assert_eq!(v.slice(0, 9, 1), Ok(v.clone()));
    // a step beyond the distance leaves the first element only
    assert_eq!(floats(&v.slice(4, 6, 5).unwrap()), vec![4.0]);
}

#[test]
fn slice_is_a_new_vector() {
    let v = vector(&[0.0, 1.0, 2.0]);
    let mut s = v.slice(0, 2, 1).unwrap();
    s.push(3.0f64.to_bits());
    assert_eq!(v.len(), 3);
    assert_eq!(s.len(), 4);
}

#[test]
fn slice_with_equal_bounds_is_one_element() {
    let v = vector(&[0.0, 10.0, 20.0]);
    assert_eq!(floats(&v.slice(1, 1, 1).unwrap()), vec![10.0]);
    assert_eq!(floats(&v.slice(2, 2, 7).unwrap()), vec![20.0]);
    assert_eq!(floats(&v.slice(0, 0, 0).unwrap()), vec![0.0]);
}

#[test]
fn slice_with_equal_bounds_out_of_range() {
    let v = vector(&[0.0, 10.0, 20.0]);
    assert_eq!(v.slice(3, 3, 1), Err(VectorError::IndexOutOfRange));
    assert_eq!(NumericVector::new().slice(0, 0, 1), Err(VectorError::IndexOutOfRange));
}

#[test]
fn slice_ascending_out_of_range() {
    let v = vector(&[0.0, 10.0, 20.0, 30.0, 40.0]);
    assert_eq!(v.slice(0, 5, 1), Err(VectorError::IndexOutOfRange));
    assert_eq!(v.slice(3, 9, 2), Err(VectorError::IndexOutOfRange));
    assert_eq!(v.slice(5, 6, 1), Err(VectorError::IndexOutOfRange));
    assert_eq!(v.slice(0, usize::MAX, 1), Err(VectorError::IndexOutOfRange));
}

#[test]
fn slice_ascending_may_stop_short_of_an_upper_bound_beyond_the_end() {
    let v = vector(&[0.0, 10.0, 20.0, 30.0, 40.0]);
    // positions 0, 2, 4: position 5 is never walked
    assert_eq!(floats(&v.slice(0, 5, 2).unwrap()), vec![0.0, 20.0, 40.0]);
    assert_eq!(floats(&v.slice(1, usize::MAX, usize::MAX).unwrap()), vec![10.0]);
    assert_eq!(floats(&v.slice(1, 3, usize::MAX).unwrap()), vec![10.0]);
}

#[test]
fn slice_descending_with_step() {
    let v = vector(&[0.0, 10.0, 20.0, 30.0, 40.0, 50.0]);
    assert_eq!(floats(&v.slice(5, 2, 2).unwrap()), vec![50.0, 30.0]);
    assert_eq!(floats(&v.slice(5, 3, 2).unwrap()), vec![50.0, 30.0]);
    assert_eq!(floats(&v.slice(4, 2, 1).unwrap()), vec![40.0, 30.0, 20.0]);
    assert_eq!(floats(&v.slice(4, 2, 2).unwrap()), vec![40.0, 20.0]);
}

#[test]
fn slice_descending_below_zero_is_out_of_range() {
    let v = vector(&[0.0, 10.0, 20.0, 30.0, 40.0, 50.0]);
    // the step is larger than min
    assert_eq!(v.slice(1, 0, 2), Err(VectorError::IndexOutOfRange));
    // the step after the last position, 0, falls below zero
    assert_eq!(v.slice(4, 0, 2), Err(VectorError::IndexOutOfRange));
    assert_eq!(v.slice(5, 0, 1), Err(VectorError::IndexOutOfRange));
    // the step after the last position, 1, falls below zero
    assert_eq!(v.slice(5, 1, 2), Err(VectorError::IndexOutOfRange));
    assert_eq!(v.slice(4, 1, 3), Err(VectorError::IndexOutOfRange));
}

#[test]
fn slice_descending_out_of_range() {
    let v = vector(&[0.0, 10.0, 20.0, 30.0, 40.0, 50.0]);
    assert_eq!(v.slice(6, 2, 2), Err(VectorError::IndexOutOfRange));
    assert_eq!(v.slice(usize::MAX, 2, 1), Err(VectorError::IndexOutOfRange));
}

#[test]
fn clone_is_independent() {
    let a = vector(&[1.0, 2.0]);
    let mut b = a.clone();
    assert_eq!(a, b);
    b.push(3.0f64.to_bits());
    assert_eq!(floats(&a), vec![1.0, 2.0]);
    assert_eq!(floats(&b), vec![1.0, 2.0, 3.0]);
}
