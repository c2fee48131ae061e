//! A collector that silently drops duplicate values, backed by an ordered set.

use vstd::prelude::*;
use std::collections::BTreeSet;
use crate::distinct::{kept_new, lemma_kept_new_step};

verus! {

broadcast use vstd::seq_lib::group_seq_properties;

/// A wrapper around a growing vector that ignores duplicated values: each
/// incoming value is appended at most once, and every repetition of a value
/// already seen is dropped.
pub struct UniquifyOrd {
    inner: Vec<i64>,
    set: BTreeSet<i64>,
}

impl View for UniquifyOrd {
    type V = Seq<i64>;

    closed spec fn view(&self) -> Seq<i64> {
        self.inner@
    }
}

impl UniquifyOrd {
    /// The set of every value seen so far, kept or dropped.
    pub closed spec fn seen(self) -> Set<i64> {
        self.set@
    }

    /// A collector that has seen no values yet.
    pub fn new() -> (r: UniquifyOrd)
        ensures
            r@ == Seq::<i64>::empty(),
            r.seen() == Set::<i64>::empty(),
    {
        UniquifyOrd { inner: Vec::new(), set: BTreeSet::new() }
    }

    /// A collector offered all of `batch`: it keeps the first occurrence of
    /// each value, in order.
    pub fn from_batch(batch: Vec<i64>) -> (r: UniquifyOrd)
        ensures
            r@ == kept_new(Set::<i64>::empty(), batch@),
            r.seen() == batch@.to_set(),
    {
        let mut r = UniquifyOrd::new();
        r.extend(batch);
        proof {
            assert(Seq::<i64>::empty() + kept_new(Set::<i64>::empty(), batch@) =~= kept_new(
                Set::<i64>::empty(),
                batch@,
            ));
            assert(Set::<i64>::empty().union(batch@.to_set()) =~= batch@.to_set());
        }
        r
    }

    /// Offers one more batch: of its values, exactly those never seen
    /// before are appended, first occurrences in order.
    pub fn extend(&mut self, batch: Vec<i64>)
        ensures
            final(self)@ == old(self)@ + kept_new(old(self).seen(), batch@),
            final(self).seen() == old(self).seen().union(batch@.to_set()),
    {
        let ghost s0 = self.set@;
        let ghost inner0 = self.inner@;
        let mut i: usize = 0;
        while i < batch.len()
            invariant
                i <= batch.len(),
                s0 == old(self).set@,
                inner0 == old(self).inner@,
                self.set@ == s0.union(batch@.take(i as int).to_set()),
                self.inner@ == inner0 + kept_new(s0, batch@.take(i as int)),
            decreases batch@.len() - i,
        {
            let x = batch[i];
            let added = self.set.insert(x);
            proof {
                assert(batch@.take(i + 1int) =~= batch@.take(i as int).push(x));
                lemma_kept_new_step(s0, batch@, i as int);
                assert(self.set@ =~= s0.union(batch@.take(i + 1int).to_set()));
            }
            if added {
                self.inner.push(x);
                proof {
                    assert(self.inner@ =~= inner0 + kept_new(s0, batch@.take(i + 1int)));
                }
            }
            i = i + 1;
        }
        proof {
            assert(batch@.take(batch@.len() as int) =~= batch@);
        }
    }

    /// The values kept so far, in encounter order.
    pub fn get(&self) -> (r: &Vec<i64>)
        ensures
            r@ == self@,
    {
        &self.inner
    }

    /// Consumes the collector and returns the kept values, in encounter
    /// order.
    pub fn into_inner(self) -> (r: Vec<i64>)
        ensures
            r@ == self@,
    {
        self.inner
    }
}

} // verus!
