//! A bounded top-K selector: a collector that retains the K largest values
//! offered to it, across any number of batches.

use vstd::prelude::*;
use vstd::multiset::Multiset;
use crate::heap::{
    heap_elems, heap_into_vec, heap_into_vec_desc, heap_len, heap_new, heap_pop_min, heap_push,
};

verus! {

broadcast use vstd::multiset::group_multiset_axioms, vstd::seq_lib::group_to_multiset_ensures;

/// `retained` holds the `k` largest elements of `offered`: it is drawn from
/// `offered`, it is as large as the capacity and the supply allow, and no
/// element left out is larger than any element kept.
pub open spec fn is_top_k(k: nat, offered: Multiset<i64>, retained: Multiset<i64>) -> bool {
    &&& retained.subset_of(offered)
    &&& retained.len() == vstd::math::min(k as int, offered.len() as int)
    &&& forall|x: i64, y: i64|
        #![trigger retained.count(x), retained.count(y)]
        offered.count(x) > retained.count(x) && retained.count(y) > 0 ==> x <= y
}

/// A sequence sorted in descending order.
pub open spec fn sorted_desc(s: Seq<i64>) -> bool {
    forall|i: int, j: int| 0 <= i <= j < s.len() ==> s[i] >= s[j]
}

/// The collection that retains the `k` largest values offered so far.
pub struct TopK {
    heap: min_max_heap::MinMaxHeap<i64>,
    k: usize,
    history: Ghost<Multiset<i64>>,
}

impl TopK {
    /// The capacity `k` this selector was built with.
    pub closed spec fn capacity(self) -> nat {
        self.k as nat
    }

    /// The multiset of every value offered so far.
    pub closed spec fn offered(self) -> Multiset<i64> {
        self.history@
    }

    /// The multiset of values currently retained.
    pub closed spec fn retained(self) -> Multiset<i64> {
        heap_elems(self.heap)
    }

    /// The selector retains exactly the `k` largest of the offered values.
    pub open spec fn wf(self) -> bool {
        is_top_k(self.capacity(), self.offered(), self.retained())
    }

    /// A selector with capacity `k` that has seen no values yet.
    pub fn empty(k: usize) -> (t: TopK)
        ensures
            t.wf(),
            t.capacity() == k,
            t.offered() == Multiset::<i64>::empty(),
    {
        TopK { heap: heap_new(), k, history: Ghost(Multiset::empty()) }
    }

    /// A selector with capacity `k` that has been offered exactly `batch`.
    pub fn from_batch(k: usize, batch: Vec<i64>) -> (t: TopK)
        ensures
            t.wf(),
            t.capacity() == k,
            t.offered() == batch@.to_multiset(),
    {
        let mut t = TopK::empty(k);
        t.offer_batch(batch);
        proof {
            assert(Multiset::<i64>::empty().add(batch@.to_multiset()) =~= batch@.to_multiset());
        }
        t
    }

    /// Offers every element of `batch`, in order; each element is retained,
    /// or discarded, so that the `k` largest of all offered values remain.
    pub fn offer_batch(&mut self, batch: Vec<i64>)
        requires
            old(self).wf(),
        ensures
            final(self).wf(),
            final(self).capacity() == old(self).capacity(),
            final(self).offered() == old(self).offered().add(batch@.to_multiset()),
    {
        let mut i: usize = 0;
        while i < batch.len()
            invariant
                i <= batch.len(),
                self.k == old(self).k,
                self.wf(),
                self.offered() == old(self).offered().add(batch@.take(i as int).to_multiset()),
            decreases batch@.len() - i,
        {
            let v = batch[i];
            let ghost off0 = self.history@;
            let ghost r0 = heap_elems(self.heap);
            let len = heap_len(&self.heap);
            if len < self.k {
                heap_push(&mut self.heap, v);
                proof {
                    lemma_top_k_insert_below(self.k as nat, off0, r0, v);
                }
            } else {
                heap_push(&mut self.heap, v);
                let ghost r1 = heap_elems(self.heap);
                let popped = heap_pop_min(&mut self.heap);
                proof {
                    assert(r1 == r0.insert(v));
                    assert(Multiset::<i64>::empty().len() == 0);
                    assert(r1.len() == r0.len() + 1);
                    let m = popped->Some_0;
                    lemma_top_k_insert_full(self.k as nat, off0, r0, v, m);
                }
            }
            self.history = Ghost(self.history@.insert(v));
            proof {
                assert(batch@.take(i + 1int) =~= batch@.take(i as int).push(batch@[i as int]));
                assert(self.offered() =~= old(self).offered().add(
                    batch@.take(i + 1int).to_multiset(),
                ));
            }
            i = i + 1;
        }
        proof {
            assert(batch@.take(batch@.len() as int) =~= batch@);
        }
    }

    /// A reference to the underlying heap of retained values.
    pub fn get_heap(&self) -> (h: &min_max_heap::MinMaxHeap<i64>)
        ensures
            heap_elems(*h) == self.retained(),
    {
        &self.heap
    }

    /// Consumes the selector and returns the underlying heap of retained
    /// values.
    pub fn into_heap(self) -> (h: min_max_heap::MinMaxHeap<i64>)
        ensures
            heap_elems(h) == self.retained(),
    {
        let TopK { heap, .. } = self;
        heap
    }

    /// Consumes the selector and returns the retained values in arbitrary
    /// order: the `k` largest of everything offered.
    pub fn finalize_unordered(self) -> (r: Vec<i64>)
        requires
            self.wf(),
        ensures
            r@.to_multiset() == self.retained(),
            is_top_k(self.capacity(), self.offered(), r@.to_multiset()),
            r@.len() == vstd::math::min(self.capacity() as int, self.offered().len() as int),
    {
        let TopK { heap, .. } = self;
        heap_into_vec(heap)
    }

    /// Consumes the selector and returns the retained values sorted in
    /// descending order: the `k` largest of everything offered, largest
    /// first.
    pub fn into_sorted_vec(self) -> (r: Vec<i64>)
        requires
            self.wf(),
        ensures
            sorted_desc(r@),
            r@.to_multiset() == self.retained(),
            is_top_k(self.capacity(), self.offered(), r@.to_multiset()),
            r@.len() == vstd::math::min(self.capacity() as int, self.offered().len() as int),
    {
        let TopK { heap, .. } = self;
        heap_into_vec_desc(heap)
    }
}

/// A multiset included in another is no longer than it, and the lengths
/// differ by the length of the difference.
proof fn lemma_subset_len(a: Multiset<i64>, b: Multiset<i64>)
    requires
        a.subset_of(b),
    ensures
        b.len() == a.len() + b.sub(a).len(),
{
    assert(b.sub(a).len() == b.len() - a.len());
}

/// Offering one more element to a selector that is below capacity keeps the
/// top-K property: the element is simply retained.
proof fn lemma_top_k_insert_below(k: nat, s: Multiset<i64>, r: Multiset<i64>, e: i64)
    requires
        is_top_k(k, s, r),
        r.len() < k,
    ensures
        is_top_k(k, s.insert(e), r.insert(e)),
{
    lemma_subset_len(r, s);
    assert(s.len() < k);
    assert(s.sub(r).len() == 0);
    assert forall|v: i64| s.count(v) == r.count(v) by {
        assert(s.sub(r).count(v) == 0);
    }
    assert forall|x: i64, y: i64|
        #![trigger r.insert(e).count(x), r.insert(e).count(y)]
        s.insert(e).count(x) > r.insert(e).count(x) && r.insert(e).count(y) > 0 implies x
        <= y by {
        assert(s.insert(e).count(x) == r.insert(e).count(x));
    }
}

/// Offering one more element to a selector at capacity, then evicting the
/// minimum of the enlarged collection, keeps the top-K property.
proof fn lemma_top_k_insert_full(k: nat, s: Multiset<i64>, r: Multiset<i64>, e: i64, m: i64)
    requires
        is_top_k(k, s, r),
        r.len() == k,
        r.insert(e).count(m) > 0,
        forall|x: i64| r.insert(e).count(x) > 0 ==> m <= x,
    ensures
        is_top_k(k, s.insert(e), r.insert(e).remove(m)),
{
    let s2 = s.insert(e);
    let r1 = r.insert(e);
    let r2 = r1.remove(m);
    lemma_subset_len(r, s);
    assert(Multiset::singleton(m).subset_of(r1)) by {
        assert forall|v: i64| Multiset::singleton(m).count(v) <= r1.count(v) by {
            if v == m {
                assert(r1.count(m) >= 1);
            } else {
                assert(Multiset::singleton(m).count(v) == 0);
            }
        }
    }
    assert(r2.len() == r1.len() - 1);
    assert(r2.len() == k);
    assert(s2.len() >= k + 1);
    assert(r2.len() == vstd::math::min(k as int, s2.len() as int));
    assert(r2.subset_of(s2)) by {
        assert forall|v: i64| r2.count(v) <= s2.count(v) by {
            assert(r.count(v) <= s.count(v));
        }
    }
    assert forall|x: i64, y: i64|
        #![trigger r2.count(x), r2.count(y)]
        s2.count(x) > r2.count(x) && r2.count(y) > 0 implies x <= y by {
        assert(r1.count(y) > 0);
        assert(m <= y);
        if s.count(x) > r.count(x) {
            // x was already left out before this step
            if r.count(m) > 0 {
                assert(x <= m);
            } else {
                // the popped value can only be the new element
                assert(m == e);
                assert(r2.count(y) == r.count(y));
                assert(x <= y);
            }
        } else {
            // x only became left out by this step, so x is the popped minimum
            assert(s.count(x) == r.count(x));
            assert(x == m);
        }
    }
}

/// The retained multiset is determined by the capacity and the offered
/// multiset alone: any two collections satisfying the top-K property for the
/// same capacity and offered values are equal. In particular, permuting the
/// offered values, or regrouping them into different batches, cannot change
/// which values are retained.
pub proof fn lemma_top_k_unique(k: nat, s: Multiset<i64>, r1: Multiset<i64>, r2: Multiset<i64>)
    requires
        is_top_k(k, s, r1),
        is_top_k(k, s, r2),
    ensures
        r1 == r2,
{
    assert forall|v: i64| #[trigger] r1.count(v) == r2.count(v) by {
        lemma_top_k_count_le(k, s, r1, r2, v);
        lemma_top_k_count_le(k, s, r2, r1, v);
    }
    assert(r1 =~= r2);
}

/// No value can be retained more often by one top-K collection than by
/// another over the same offered values.
proof fn lemma_top_k_count_le(
    k: nat,
    s: Multiset<i64>,
    r1: Multiset<i64>,
    r2: Multiset<i64>,
    v: i64,
)
    requires
        is_top_k(k, s, r1),
        is_top_k(k, s, r2),
    ensures
        r1.count(v) <= r2.count(v),
{
    if r1.count(v) > r2.count(v) {
        if forall|w: i64| #[trigger] r2.count(w) <= r1.count(w) {
            // then r2 would be a strictly smaller sub-multiset of r1,
            // although both have length min(k, |s|)
            lemma_subset_len(r2, r1);
            assert(r1.sub(r2).count(v) > 0);
            assert(r1.sub(r2).len() >= r1.sub(r2).count(v));
            assert(r1.len() > r2.len());
        } else {
            let w = choose|w: i64| r2.count(w) > r1.count(w);
            // v is left out of r2, so it is at most every element of r2
            assert(s.count(v) >= r1.count(v));
            assert(v <= w);
            // w is left out of r1, so it is at most every element of r1
            assert(s.count(w) >= r2.count(w));
            assert(w <= v);
            // so v and w coincide, and each count exceeds the other
            assert(v == w);
        }
    }
}

/// Two well-formed selectors with the same capacity and the same offer
/// history retain the same multiset of values, however the offers were
/// split into batches: a fresh selector replaying the history reproduces
/// the result.
pub proof fn lemma_same_history_same_retained(a: TopK, b: TopK)
    requires
        a.wf(),
        b.wf(),
        a.capacity() == b.capacity(),
        a.offered() == b.offered(),
    ensures
        a.retained() == b.retained(),
{
    lemma_top_k_unique(a.capacity(), a.offered(), a.retained(), b.retained());
}

/// Offering a sequence of values in one batch, or split at any point into
/// two batches, builds the same offer history, and so retains the same
/// multiset of values.
pub proof fn lemma_batch_split_equivalence(a: TopK, b: TopK, u: Seq<i64>, w: Seq<i64>)
    requires
        a.wf(),
        b.wf(),
        a.capacity() == b.capacity(),
        a.offered() == (u + w).to_multiset(),
        b.offered() == u.to_multiset().add(w.to_multiset()),
    ensures
        a.retained() == b.retained(),
{
    vstd::seq_lib::lemma_multiset_commutative(u, w);
    lemma_top_k_unique(a.capacity(), a.offered(), a.retained(), b.retained());
}

/// Permuting the offered values cannot change which values are retained:
/// two selectors fed rearrangements of the same values retain the same
/// multiset.
pub proof fn lemma_permuted_input_same_retained(a: TopK, b: TopK, s1: Seq<i64>, s2: Seq<i64>)
    requires
        a.wf(),
        b.wf(),
        a.capacity() == b.capacity(),
        a.offered() == s1.to_multiset(),
        b.offered() == s2.to_multiset(),
        s1.to_multiset() == s2.to_multiset(),
    ensures
        a.retained() == b.retained(),
{
    lemma_top_k_unique(a.capacity(), a.offered(), a.retained(), b.retained());
}

/// A selector with capacity zero retains nothing, whatever it was offered.
pub proof fn lemma_zero_capacity(t: TopK)
    requires
        t.wf(),
        t.capacity() == 0,
    ensures
        t.retained() == Multiset::<i64>::empty(),
{
    assert(t.retained().len() == 0);
    vstd::multiset::lemma_multiset_empty_len(t.retained());
}

} // verus!
