//! A collector that keeps the first value it was ever offered.

use vstd::prelude::*;

verus! {

/// A collection that keeps the first item offered to it; every later item is
/// consumed and dropped.
pub struct First<T> {
    inner: Option<T>,
}

impl<T> View for First<T> {
    type V = Option<T>;

    closed spec fn view(&self) -> Option<T> {
        self.inner
    }
}

impl<T> First<T> {
    /// A collector that has seen no values yet.
    pub fn new() -> (r: First<T>)
        ensures
            r@ is None,
    {
        First { inner: None }
    }

    /// A collector holding the first element of `batch`, if any.
    pub fn from_batch(batch: Vec<T>) -> (r: First<T>)
        ensures
            r@ == if batch@.len() > 0 {
                Some(batch@[0])
            } else {
                None::<T>
            },
    {
        let mut r = First::new();
        r.extend(batch);
        r
    }

    /// Offers more values: they are all dropped unless nothing was held yet,
    /// in which case the first of them is kept.
    pub fn extend(&mut self, batch: Vec<T>)
        ensures
            final(self)@ == if old(self)@ is Some {
                old(self)@
            } else if batch@.len() > 0 {
                Some(batch@[0])
            } else {
                None::<T>
            },
    {
        if self.inner.is_none() && batch.len() > 0 {
            let mut batch = batch;
            let x = batch.remove(0);
            self.inner = Some(x);
        }
    }

    /// The held value, if any.
    pub fn get(&self) -> (r: Option<&T>)
        ensures
            match r {
                Some(x) => self@ is Some && *x == self@->Some_0,
                None => self@ is None,
            },
    {
        self.inner.as_ref()
    }

    /// Consumes the collector and returns the held value, if any.
    pub fn into_inner(self) -> (r: Option<T>)
        ensures
            r == self@,
    {
        self.inner
    }
}

} // verus!
