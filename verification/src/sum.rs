//! A collector that keeps the running sum of the values offered to it,
//! starting from zero.

use vstd::prelude::*;
use crate::seq_arith::{partial_sums_fit, seq_sum};

verus! {

/// A collection taking the summation of the offered values; an empty history
/// sums to zero.
#[derive(Clone, Copy)]
pub struct SumVal(pub i64);

impl SumVal {
    /// A sum over nothing: zero.
    pub fn new() -> (r: SumVal)
        ensures
            r.0 == 0,
    {
        SumVal(0)
    }

    /// The sum of the elements of `batch`.
    pub fn from_batch(batch: Vec<i64>) -> (r: SumVal)
        requires
            partial_sums_fit(0, batch@),
        ensures
            r.0 == seq_sum(batch@),
    {
        let mut r = SumVal(0);
        r.extend(batch);
        r
    }

    /// Adds every element of one more batch to the running sum.
    pub fn extend(&mut self, batch: Vec<i64>)
        requires
            partial_sums_fit(old(self).0 as int, batch@),
        ensures
            final(self).0 == old(self).0 + seq_sum(batch@),
    {
        proof {
            assert(batch@.take(0int) =~= Seq::<i64>::empty());
            assert(seq_sum(Seq::<i64>::empty()) == 0);
        }
        let mut i: usize = 0;
        while i < batch.len()
            invariant
                i <= batch.len(),
                partial_sums_fit(old(self).0 as int, batch@),
                self.0 == old(self).0 + seq_sum(batch@.take(i as int)),
            decreases batch@.len() - i,
        {
            proof {
                assert(batch@.take(0int) =~= Seq::<i64>::empty());
                assert(seq_sum(Seq::<i64>::empty()) == 0);
                assert(batch@.take(i + 1int).drop_last() =~= batch@.take(i as int));
                assert(batch@.take(i + 1int).last() == batch@[i as int]);
            }
            self.0 = self.0 + batch[i];
            i = i + 1;
        }
        proof {
            assert(batch@.take(batch@.len() as int) =~= batch@);
        }
    }

    /// The running sum.
    pub fn get(&self) -> (r: &i64)
        ensures
            *r == self.0,
    {
        &self.0
    }

    /// Consumes the collector and returns the sum.
    pub fn into_inner(self) -> (r: i64)
        ensures
            r == self.0,
    {
        self.0
    }
}

} // verus!
