//! A collector that keeps the last value it was offered so far.

use vstd::prelude::*;

verus! {

/// A collection that keeps the most recent item offered to it; every earlier
/// item is consumed and dropped.
pub struct Last<T> {
    inner: Option<T>,
}

impl<T> View for Last<T> {
    type V = Option<T>;

    closed spec fn view(&self) -> Option<T> {
        self.inner
    }
}

impl<T> Last<T> {
    /// A collector that has seen no values yet.
    pub fn new() -> (r: Last<T>)
        ensures
            r@ is None,
    {
        Last { inner: None }
    }

    /// A collector holding the last element of `batch`, if any.
    pub fn from_batch(batch: Vec<T>) -> (r: Last<T>)
        ensures
            r@ == if batch@.len() > 0 {
                Some(batch@.last())
            } else {
                None::<T>
            },
    {
        let mut r = Last::new();
        r.extend(batch);
        r
    }

    /// Offers more values: the last of them replaces the held value; an
    /// empty batch changes nothing.
    pub fn extend(&mut self, batch: Vec<T>)
        ensures
            final(self)@ == if batch@.len() > 0 {
                Some(batch@.last())
            } else {
                old(self)@
            },
    {
        if batch.len() > 0 {
            let mut batch = batch;
            let x = batch.pop().unwrap();
            self.inner = Some(x);
        }
    }

    /// The held value, if any.
    pub fn get(&self) -> (r: Option<&T>)
        ensures
            match r {
                Some(x) => self@ is Some && *x == self@->Some_0,
                None => self@ is None,
            },
    {
        self.inner.as_ref()
    }

    /// Consumes the collector and returns the held value, if any.
    pub fn into_inner(self) -> (r: Option<T>)
        ensures
            r == self@,
    {
        self.inner
    }
}

} // verus!
