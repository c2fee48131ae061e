//! A collector that only counts how many values it was offered.

use vstd::prelude::*;
use core::marker::PhantomData;

verus! {

/// A counter of witnessed items: every offered value is consumed and
/// dropped, and only the running count is kept.
pub struct Count<T> {
    count: usize,
    _phantom: PhantomData<T>,
}

impl<T> View for Count<T> {
    type V = nat;

    closed spec fn view(&self) -> nat {
        self.count as nat
    }
}

impl<T> Count<T> {
    /// A counter at zero.
    pub fn new() -> (r: Count<T>)
        ensures
            r@ == 0,
    {
        Count { count: 0, _phantom: PhantomData }
    }

    /// A counter that has counted exactly the elements of `batch`.
    pub fn from_batch(batch: Vec<T>) -> (r: Count<T>)
        ensures
            r@ == batch@.len(),
    {
        Count { count: batch.len(), _phantom: PhantomData }
    }

    /// Counts the elements of one more batch.
    pub fn extend(&mut self, batch: Vec<T>)
        requires
            old(self)@ + batch@.len() <= usize::MAX,
        ensures
            final(self)@ == old(self)@ + batch@.len(),
    {
        self.count = self.count + batch.len();
    }

    /// How many values have been offered so far.
    pub fn get(&self) -> (n: usize)
        ensures
            n == self@,
    {
        self.count
    }
}

} // verus!
