//! A collector that drops everything it is offered.

use vstd::prelude::*;
use core::marker::PhantomData;

verus! {

/// A collection doing nothing: every offered value is consumed and dropped,
/// and no state is kept at all.
pub struct Noop<T> {
    _phantom: PhantomData<T>,
}

impl<T> Noop<T> {
    /// A fresh no-op collector.
    pub fn new() -> Noop<T> {
        Noop { _phantom: PhantomData }
    }

    /// Consumes and drops every element of `batch`.
    pub fn from_batch(batch: Vec<T>) -> Noop<T> {
        let _ = batch;
        Noop { _phantom: PhantomData }
    }

    /// Consumes and drops every element of one more batch.
    pub fn extend(&mut self, batch: Vec<T>) {
        let _ = batch;
    }
}

} // verus!
