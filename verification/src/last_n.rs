//! A collector that retains only the most recent `n` values offered.

use vstd::prelude::*;
use std::collections::VecDeque;

verus! {

/// The suffix of `s` of length at most `n`: the last `n` elements, or all
/// of `s` when it is shorter than that.
pub open spec fn last_n_of<A>(s: Seq<A>, n: int) -> Seq<A> {
    if s.len() <= n {
        s
    } else {
        s.skip(s.len() - n)
    }
}

/// A collection that retains only the last `n` values offered to it; every
/// older value is dropped.
pub struct LastN<A> {
    buffer: VecDeque<A>,
    n: usize,
}

impl<A> View for LastN<A> {
    type V = Seq<A>;

    closed spec fn view(&self) -> Seq<A> {
        self.buffer@
    }
}

impl<A> LastN<A> {
    /// The bound `n` this collector was built with.
    pub closed spec fn bound(self) -> nat {
        self.n as nat
    }

    /// The buffer never grows beyond the bound.
    pub open spec fn wf(self) -> bool {
        self@.len() <= self.bound()
    }

    /// A collector with bound `n` that has seen no values yet.
    pub fn new(n: usize) -> (r: LastN<A>)
        ensures
            r.wf(),
            r.bound() == n,
            r@ == Seq::<A>::empty(),
    {
        LastN { buffer: VecDeque::new(), n }
    }

    /// A collector with bound `n` holding the last `n` elements of `batch`.
    pub fn from_batch(n: usize, batch: Vec<A>) -> (r: LastN<A>)
        ensures
            r.wf(),
            r.bound() == n,
            r@ == last_n_of(batch@, n as int),
    {
        let mut r = LastN::new(n);
        r.extend(batch);
        proof {
            assert(Seq::<A>::empty() + batch@ =~= batch@);
        }
        r
    }

    /// Offers one more batch: afterwards the collector holds the last `n`
    /// elements of everything offered so far.
    pub fn extend(&mut self, batch: Vec<A>)
        requires
            old(self).wf(),
        ensures
            final(self).wf(),
            final(self).bound() == old(self).bound(),
            final(self)@ == last_n_of(old(self)@ + batch@, old(self).bound() as int),
    {
        let ghost orig = batch@;
        let mut batch = batch;
        while batch.len() > 0
            invariant
                self.n == old(self).n,
                self.wf(),
                batch@.len() <= orig.len(),
                batch@ == orig.skip(orig.len() - batch@.len()),
                self@ == last_n_of(
                    old(self)@ + orig.take(orig.len() - batch@.len()),
                    self.n as int,
                ),
            decreases batch@.len(),
        {
            let ghost j = orig.len() - batch@.len();
            let ghost pre = old(self)@ + orig.take(j);
            let x = batch.remove(0);
            proof {
                assert(orig.skip(j)[0] == orig[j]);
                assert(batch@ =~= orig.skip(j + 1));
                assert(orig.take(j + 1) =~= orig.take(j).push(orig[j]));
                assert(old(self)@ + orig.take(j + 1) =~= pre.push(x));
            }
            self.buffer.push_back(x);
            if self.buffer.len() > self.n {
                let dropped = self.buffer.pop_front();
                proof {
                    assert(self@ =~= last_n_of(pre.push(x), self.n as int));
                }
            } else {
                proof {
                    assert(self@ =~= last_n_of(pre.push(x), self.n as int));
                }
            }
        }
        proof {
            assert(orig.take(orig.len() as int) =~= orig);
        }
    }

    /// Consumes the collector and returns the retained values, oldest
    /// first.
    pub fn into_inner(self) -> (r: Vec<A>)
        ensures
            r@ == self@,
    {
        let LastN { buffer, .. } = self;
        let mut buffer = buffer;
        let mut r: Vec<A> = Vec::new();
        while buffer.len() > 0
            invariant
                r@ + buffer@ == self@,
            decreases buffer@.len(),
        {
            let ghost r0 = r@;
            let ghost b0 = buffer@;
            let x = buffer.pop_front().unwrap();
            r.push(x);
            proof {
                assert(r0 + b0 =~= r0.push(x) + buffer@);
            }
        }
        proof {
            assert(r@ + buffer@ =~= r@);
        }
        r
    }
}

} // verus!
