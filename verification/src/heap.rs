//! Trusted boundary around the double-ended priority queue of the
//! `min_max_heap` crate, which backs the top-K selector.

use vstd::prelude::*;
use vstd::multiset::Multiset;

verus! {

#[verifier::external_type_specification]
#[verifier::external_body]
#[verifier::reject_recursive_types(T)]
pub struct ExMinMaxHeap<T>(min_max_heap::MinMaxHeap<T>);

/// The multiset of elements currently held by a `MinMaxHeap<i64>`.
pub uninterp spec fn heap_elems(h: min_max_heap::MinMaxHeap<i64>) -> Multiset<i64>;

/// Relies on `min_max_heap::MinMaxHeap::new`: creates an empty heap.
#[verifier::external_body]
pub(crate) fn heap_new() -> (h: min_max_heap::MinMaxHeap<i64>)
    ensures
        heap_elems(h) == Multiset::<i64>::empty(),
{
    min_max_heap::MinMaxHeap::new()
}

/// Relies on `min_max_heap::MinMaxHeap::len`: the number of elements held.
#[verifier::external_body]
pub(crate) fn heap_len(h: &min_max_heap::MinMaxHeap<i64>) -> (n: usize)
    ensures
        n == heap_elems(*h).len(),
{
    h.len()
}

/// Relies on `min_max_heap::MinMaxHeap::push`: adds one element to the heap.
#[verifier::external_body]
pub(crate) fn heap_push(h: &mut min_max_heap::MinMaxHeap<i64>, v: i64)
    ensures
        heap_elems(*final(h)) == heap_elems(*old(h)).insert(v),
{
    h.push(v)
}

/// Relies on `min_max_heap::MinMaxHeap::pop_min`: removes and returns a
/// minimum element, or returns `None` when the heap is empty.
#[verifier::external_body]
pub(crate) fn heap_pop_min(h: &mut min_max_heap::MinMaxHeap<i64>) -> (r: Option<i64>)
    ensures
        match r {
            None => {
                &&& heap_elems(*old(h)) == Multiset::<i64>::empty()
                &&& heap_elems(*final(h)) == heap_elems(*old(h))
            },
            Some(m) => {
                &&& heap_elems(*old(h)).count(m) > 0
                &&& heap_elems(*final(h)) == heap_elems(*old(h)).remove(m)
                &&& forall|x: i64| heap_elems(*old(h)).count(x) > 0 ==> m <= x
            },
        },
{
    h.pop_min()
}

/// Relies on `min_max_heap::MinMaxHeap::into_vec`: returns the elements in
/// a vector, in arbitrary order.
#[verifier::external_body]
pub(crate) fn heap_into_vec(h: min_max_heap::MinMaxHeap<i64>) -> (r: Vec<i64>)
    ensures
        r@.to_multiset() == heap_elems(h),
{
    h.into_vec()
}

/// Relies on `min_max_heap::MinMaxHeap::into_vec_desc`: returns the
/// elements in a vector, sorted in descending order.
#[verifier::external_body]
pub(crate) fn heap_into_vec_desc(h: min_max_heap::MinMaxHeap<i64>) -> (r: Vec<i64>)
    ensures
        r@.to_multiset() == heap_elems(h),
        forall|i: int, j: int| 0 <= i <= j < r@.len() ==> r@[i] >= r@[j],
{
    h.into_vec_desc()
}

} // verus!
