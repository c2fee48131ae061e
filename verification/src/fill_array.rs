//! A collector that fills a fixed number of slots and ignores the rest.

use vstd::prelude::*;

verus! {

/// A collection that gathers values into a fixed-size buffer, silently
/// dropping everything offered once the buffer is full; it yields its
/// buffer only when every slot was filled.
pub struct FillArray<A> {
    items: Vec<A>,
    size: usize,
}

impl<A> View for FillArray<A> {
    type V = Seq<A>;

    closed spec fn view(&self) -> Seq<A> {
        self.items@
    }
}

impl<A> FillArray<A> {
    /// The fixed size this collector was built with.
    pub closed spec fn size(self) -> nat {
        self.size as nat
    }

    /// The buffer never grows beyond the fixed size.
    pub open spec fn wf(self) -> bool {
        self@.len() <= self.size()
    }

    /// An empty collector with `size` slots.
    pub fn new(size: usize) -> (r: FillArray<A>)
        ensures
            r.wf(),
            r.size() == size,
            r@ == Seq::<A>::empty(),
    {
        FillArray { items: Vec::new(), size }
    }

    /// A collector with `size` slots, offered all of `batch`.
    pub fn from_batch(size: usize, batch: Vec<A>) -> (r: FillArray<A>)
        ensures
            r.wf(),
            r.size() == size,
            batch@.len() <= size ==> r@ == batch@,
            batch@.len() > size ==> r@ == batch@.take(size as int),
    {
        let mut r = FillArray::new(size);
        r.extend(batch);
        proof {
            assert(Seq::<A>::empty() + batch@ =~= batch@);
            if batch@.len() > size {
                assert(Seq::<A>::empty() + batch@.take(size as int) =~= batch@.take(size as int));
            }
        }
        r
    }

    /// Offers one more batch: values fill the remaining slots in order, and
    /// everything beyond the last slot is dropped.
    pub fn extend(&mut self, batch: Vec<A>)
        requires
            old(self).wf(),
        ensures
            final(self).wf(),
            final(self).size() == old(self).size(),
            batch@.len() <= old(self).size() - old(self)@.len() ==> final(self)@ == old(self)@
                + batch@,
            batch@.len() > old(self).size() - old(self)@.len() ==> final(self)@ == old(self)@
                + batch@.take(old(self).size() - old(self)@.len()),
    {
        let ghost orig = batch@;
        let mut batch = batch;
        while self.items.len() < self.size && batch.len() > 0
            invariant
                self.size == old(self).size,
                self@.len() <= self.size(),
                batch@.len() <= orig.len(),
                batch@ == orig.skip(orig.len() - batch@.len()),
                self@ == old(self)@ + orig.take(orig.len() - batch@.len()),
            decreases batch@.len(),
        {
            let ghost j = orig.len() - batch@.len();
            let x = batch.remove(0);
            proof {
                assert(orig.skip(j)[0] == orig[j]);
                assert(batch@ =~= orig.skip(j + 1));
                assert(orig.take(j + 1) =~= orig.take(j).push(orig[j]));
            }
            self.items.push(x);
        }
        proof {
            if batch@.len() == 0 {
                assert(orig.take(orig.len() as int) =~= orig);
            } else {
                assert(orig.len() - batch@.len() == self.size() - old(self)@.len());
            }
        }
    }

    /// Consumes the collector; yields the gathered values exactly when
    /// every slot was filled.
    pub fn into_array(self) -> (r: Option<Vec<A>>)
        ensures
            match r {
                Some(v) => self@.len() == self.size() && v@ == self@,
                None => self@.len() != self.size(),
            },
    {
        let FillArray { items, size } = self;
        if items.len() == size {
            Some(items)
        } else {
            None
        }
    }
}

} // verus!
