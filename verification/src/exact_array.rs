//! A collector that accepts exactly a fixed number of values.

use vstd::prelude::*;

verus! {

/// A collection that gathers values into a fixed-size buffer and remembers
/// whether it was ever offered more than fits; it yields its buffer only
/// when it was filled exactly.
pub struct ExactArray<A> {
    items: Vec<A>,
    size: usize,
    overflow: bool,
}

impl<A> View for ExactArray<A> {
    type V = Seq<A>;

    closed spec fn view(&self) -> Seq<A> {
        self.items@
    }
}

impl<A> ExactArray<A> {
    /// The fixed size this collector was built with.
    pub closed spec fn size(self) -> nat {
        self.size as nat
    }

    /// Whether more values than fit were ever offered.
    pub closed spec fn overflowed(self) -> bool {
        self.overflow
    }

    /// The buffer never grows beyond the fixed size.
    pub open spec fn wf(self) -> bool {
        self@.len() <= self.size()
    }

    /// An empty collector for exactly `size` values.
    pub fn new(size: usize) -> (r: ExactArray<A>)
        ensures
            r.wf(),
            r.size() == size,
            r@ == Seq::<A>::empty(),
            !r.overflowed(),
    {
        ExactArray { items: Vec::new(), size, overflow: false }
    }

    /// A collector for exactly `size` values, offered all of `batch`.
    pub fn from_batch(size: usize, batch: Vec<A>) -> (r: ExactArray<A>)
        ensures
            r.wf(),
            r.size() == size,
            batch@.len() <= size ==> r@ == batch@ && !r.overflowed(),
            batch@.len() > size ==> r@ == batch@.take(size as int) && r.overflowed(),
    {
        let mut r = ExactArray::new(size);
        r.extend(batch);
        proof {
            assert(Seq::<A>::empty() + batch@ =~= batch@);
            if batch@.len() > size {
                assert(Seq::<A>::empty() + batch@.take(size as int) =~= batch@.take(size as int));
            }
        }
        r
    }

    /// Offers one more batch: values are kept while room remains; a value
    /// offered to a full collector marks it overflowed, and everything
    /// after an overflow is dropped.
    pub fn extend(&mut self, batch: Vec<A>)
        requires
            old(self).wf(),
        ensures
            final(self).wf(),
            final(self).size() == old(self).size(),
            old(self).overflowed() ==> final(self)@ == old(self)@ && final(self).overflowed(),
            !old(self).overflowed() && batch@.len() <= old(self).size() - old(self)@.len()
                ==> final(self)@ == old(self)@ + batch@ && !final(self).overflowed(),
            !old(self).overflowed() && batch@.len() > old(self).size() - old(self)@.len()
                ==> final(self)@ == old(self)@ + batch@.take(
                old(self).size() - old(self)@.len(),
            ) && final(self).overflowed(),
    {
        if self.overflow {
            return ;
        }
        let ghost orig = batch@;
        let mut batch = batch;
        while self.items.len() < self.size && batch.len() > 0
            invariant
                self.size == old(self).size,
                !self.overflow,
                self@.len() <= self.size(),
                batch@.len() <= orig.len(),
                batch@ == orig.skip(orig.len() - batch@.len()),
                self@ == old(self)@ + orig.take(orig.len() - batch@.len()),
            decreases batch@.len(),
        {
            let ghost j = orig.len() - batch@.len();
            let x = batch.remove(0);
            proof {
                assert(orig.skip(j)[0] == orig[j]);
                assert(batch@ =~= orig.skip(j + 1));
                assert(orig.take(j + 1) =~= orig.take(j).push(orig[j]));
            }
            self.items.push(x);
        }
        if batch.len() > 0 {
            self.overflow = true;
        }
        proof {
            if batch@.len() == 0 {
                assert(orig.take(orig.len() as int) =~= orig);
            } else {
                assert(orig.len() - batch@.len() == self.size() - old(self)@.len());
            }
        }
    }

    /// Consumes the collector; yields the gathered values exactly when the
    /// buffer was filled to its size and never overflowed.
    pub fn into_array(self) -> (r: Option<Vec<A>>)
        ensures
            match r {
                Some(v) => !self.overflowed() && self@.len() == self.size() && v@ == self@,
                None => self.overflowed() || self@.len() != self.size(),
            },
    {
        let ExactArray { items, size, overflow } = self;
        if !overflow && items.len() == size {
            Some(items)
        } else {
            None
        }
    }
}

} // verus!
