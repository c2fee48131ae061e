//! A collector that keeps the running product of the values offered to it,
//! starting from one.

use vstd::prelude::*;
use crate::seq_arith::{partial_prods_fit, seq_prod};

verus! {

/// A collection taking the product of the offered values; an empty history
/// multiplies to one.
#[derive(Clone, Copy)]
pub struct ProductVal(pub i64);

impl ProductVal {
    /// A product over nothing: one.
    pub fn new() -> (r: ProductVal)
        ensures
            r.0 == 1,
    {
        ProductVal(1)
    }

    /// The product of the elements of `batch`.
    pub fn from_batch(batch: Vec<i64>) -> (r: ProductVal)
        requires
            partial_prods_fit(1, batch@),
        ensures
            r.0 == seq_prod(batch@),
    {
        let mut r = ProductVal(1);
        r.extend(batch);
        r
    }

    /// Multiplies the running product by every element of one more batch.
    pub fn extend(&mut self, batch: Vec<i64>)
        requires
            partial_prods_fit(old(self).0 as int, batch@),
        ensures
            final(self).0 == old(self).0 * seq_prod(batch@),
    {
        let ghost base = old(self).0 as int;
        proof {
            assert(batch@.take(0int) =~= Seq::<i64>::empty());
            assert(seq_prod(Seq::<i64>::empty()) == 1);
        }
        let mut i: usize = 0;
        while i < batch.len()
            invariant
                i <= batch.len(),
                base == old(self).0 as int,
                partial_prods_fit(base, batch@),
                self.0 == base * seq_prod(batch@.take(i as int)),
            decreases batch@.len() - i,
        {
            let x = batch[i];
            proof {
                assert(batch@.take(0int) =~= Seq::<i64>::empty());
                assert(seq_prod(Seq::<i64>::empty()) == 1);
                assert(batch@.take(i + 1int).drop_last() =~= batch@.take(i as int));
                assert(batch@.take(i + 1int).last() == batch@[i as int]);
                let p = seq_prod(batch@.take(i as int));
                assert(base * (p * x) == (base * p) * x) by (nonlinear_arith);
            }
            self.0 = self.0 * x;
            i = i + 1;
        }
        proof {
            assert(batch@.take(batch@.len() as int) =~= batch@);
        }
    }

    /// The running product.
    pub fn get(&self) -> (r: &i64)
        ensures
            *r == self.0,
    {
        &self.0
    }

    /// Consumes the collector and returns the product.
    pub fn into_inner(self) -> (r: i64)
        ensures
            r == self.0,
    {
        self.0
    }
}

} // verus!
