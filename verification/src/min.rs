//! A collector that keeps the smallest value offered to it so far.

use vstd::prelude::*;
use crate::seq_arith::{min_i64, seq_min};

verus! {

/// A collection folding the offered values with minimum; it holds `None`
/// until the first value arrives.
#[derive(Clone, Copy)]
pub struct MinVal(Option<i64>);

impl View for MinVal {
    type V = Option<i64>;

    closed spec fn view(&self) -> Option<i64> {
        self.0
    }
}

impl MinVal {
    /// A fold that has seen no values yet.
    pub fn new() -> (r: MinVal)
        ensures
            r@ is None,
    {
        MinVal(None)
    }

    /// The smallest element of `batch`, or nothing when `batch` is empty.
    pub fn from_batch(batch: Vec<i64>) -> (r: MinVal)
        ensures
            r@ is Some <==> batch@.len() > 0,
            batch@.len() > 0 ==> r@ == Some(seq_min(batch@)),
    {
        let mut r = MinVal(None);
        r.extend(batch);
        r
    }

    /// Offers one more batch: the held value becomes the smallest of it and
    /// everything seen before.
    pub fn extend(&mut self, batch: Vec<i64>)
        ensures
            final(self)@ is Some <==> (old(self)@ is Some || batch@.len() > 0),
            old(self)@ is None && batch@.len() > 0 ==> final(self)@ == Some(seq_min(batch@)),
            old(self)@ is Some && batch@.len() == 0 ==> final(self)@ == old(self)@,
            old(self)@ is Some && batch@.len() > 0 ==> final(self)@ == Some(
                min_i64(old(self)@->Some_0, seq_min(batch@)),
            ),
    {
        let mut i: usize = 0;
        while i < batch.len()
            invariant
                i <= batch.len(),
                self@ is Some <==> (old(self)@ is Some || i > 0),
                old(self)@ is None && i > 0 ==> self@ == Some(seq_min(batch@.take(i as int))),
                old(self)@ is Some && i == 0 ==> self@ == old(self)@,
                old(self)@ is Some && i > 0 ==> self@ == Some(
                    min_i64(old(self)@->Some_0, seq_min(batch@.take(i as int))),
                ),
            decreases batch@.len() - i,
        {
            proof {
                assert(batch@.take(i + 1int).drop_last() =~= batch@.take(i as int));
                assert(batch@.take(i + 1int).last() == batch@[i as int]);
            }
            let x = batch[i];
            let acc = match self.0 {
                None => x,
                Some(a) => if x < a {
                    x
                } else {
                    a
                },
            };
            self.0 = Some(acc);
            i = i + 1;
        }
        proof {
            assert(batch@.take(batch@.len() as int) =~= batch@);
        }
    }

    /// The held minimum; the fold must have seen at least one value.
    pub fn unwrap(self) -> (r: i64)
        requires
            self@ is Some,
        ensures
            r == self@->Some_0,
    {
        self.0.unwrap()
    }

    /// The held minimum, if any value was seen yet.
    pub fn get(&self) -> (r: Option<&i64>)
        ensures
            match r {
                Some(x) => self@ is Some && *x == self@->Some_0,
                None => self@ is None,
            },
    {
        self.0.as_ref()
    }

    /// Consumes the collector and returns the held minimum, if any.
    pub fn into_inner(self) -> (r: Option<i64>)
        ensures
            r == self@,
    {
        self.0
    }
}

} // verus!
