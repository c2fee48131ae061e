//! A collector that folds the values offered to it with addition, holding
//! nothing until a first value arrives.

use vstd::prelude::*;
use crate::seq_arith::{fold_base, partial_sums_fit, seq_sum};

verus! {

/// A collection folding the offered values with `+`; it holds `None` until
/// the first value arrives.
#[derive(Clone, Copy)]
pub struct AddVal(Option<i64>);

impl View for AddVal {
    type V = Option<i64>;

    closed spec fn view(&self) -> Option<i64> {
        self.0
    }
}

impl AddVal {
    /// A fold that has seen no values yet.
    pub fn new() -> (r: AddVal)
        ensures
            r@ is None,
    {
        AddVal(None)
    }

    /// The sum of the elements of `batch`, or nothing when `batch` is empty.
    pub fn from_batch(batch: Vec<i64>) -> (r: AddVal)
        requires
            partial_sums_fit(0, batch@),
        ensures
            r@ is Some <==> batch@.len() > 0,
            r@ is Some ==> r@->Some_0 == seq_sum(batch@),
    {
        let mut r = AddVal(None);
        r.extend(batch);
        r
    }

    /// Adds every element of one more batch onto the held value; the first
    /// element ever offered becomes the starting value.
    pub fn extend(&mut self, batch: Vec<i64>)
        requires
            partial_sums_fit(fold_base(old(self)@, 0), batch@),
        ensures
            final(self)@ is Some <==> (old(self)@ is Some || batch@.len() > 0),
            final(self)@ is Some ==> final(self)@->Some_0 == fold_base(old(self)@, 0) + seq_sum(
                batch@,
            ),
    {
        let mut i: usize = 0;
        while i < batch.len()
            invariant
                i <= batch.len(),
                partial_sums_fit(fold_base(old(self)@, 0), batch@),
                self@ is Some <==> (old(self)@ is Some || i > 0),
                self@ is Some ==> self@->Some_0 == fold_base(old(self)@, 0) + seq_sum(
                    batch@.take(i as int),
                ),
            decreases batch@.len() - i,
        {
            proof {
                assert(batch@.take(0int) =~= Seq::<i64>::empty());
                assert(seq_sum(Seq::<i64>::empty()) == 0);
                assert(batch@.take(i + 1int).drop_last() =~= batch@.take(i as int));
                assert(batch@.take(i + 1int).last() == batch@[i as int]);
            }
            let x = batch[i];
            let acc = match self.0 {
                None => x,
                Some(a) => a + x,
            };
            self.0 = Some(acc);
            i = i + 1;
        }
        proof {
            assert(batch@.take(batch@.len() as int) =~= batch@);
        }
    }

    /// The held sum; the fold must have seen at least one value.
    pub fn unwrap(self) -> (r: i64)
        requires
            self@ is Some,
        ensures
            r == self@->Some_0,
    {
        self.0.unwrap()
    }

    /// The held sum, if any value was seen yet.
    pub fn get(&self) -> (r: Option<&i64>)
        ensures
            match r {
                Some(x) => self@ is Some && *x == self@->Some_0,
                None => self@ is None,
            },
    {
        self.0.as_ref()
    }

    /// Consumes the collector and returns the held sum, if any.
    pub fn into_inner(self) -> (r: Option<i64>)
        ensures
            r == self@,
    {
        self.0
    }
}

} // verus!
