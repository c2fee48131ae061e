//! A vector collector that demands unique input values, backed by an
//! ordered set.

use vstd::prelude::*;
use std::collections::BTreeSet;
use crate::distinct::{all_new, lemma_all_new_step};

verus! {

broadcast use vstd::seq_lib::group_seq_properties;

struct UniqState {
    inner: Vec<i64>,
    set: BTreeSet<i64>,
}

/// A wrapper around a growing vector that can only be built or extended
/// from unique values: on the first duplicate it clears out and ignores
/// every future value.
pub struct FromUniqueOrd(Option<UniqState>);

impl View for FromUniqueOrd {
    type V = Option<Seq<i64>>;

    closed spec fn view(&self) -> Option<Seq<i64>> {
        match self.0 {
            Some(st) => Some(st.inner@),
            None => None,
        }
    }
}

impl FromUniqueOrd {
    /// The membership set mirrors the gathered values.
    pub closed spec fn wf(self) -> bool {
        match self.0 {
            Some(st) => st.set@ == st.inner@.to_set() && st.inner@.no_duplicates(),
            None => true,
        }
    }

    /// A collector holding no values yet.
    pub fn new() -> (r: FromUniqueOrd)
        ensures
            r.wf(),
            r@ == Some(Seq::<i64>::empty()),
    {
        let r = FromUniqueOrd(Some(UniqState { inner: Vec::new(), set: BTreeSet::new() }));
        proof {
            assert(Seq::<i64>::empty().to_set() =~= Set::<i64>::empty());
        }
        r
    }

    /// A collector offered all of `batch`: the batch itself when its values
    /// are pairwise distinct, and nothing otherwise.
    pub fn from_batch(batch: Vec<i64>) -> (r: FromUniqueOrd)
        ensures
            r.wf(),
            r@ == if batch@.no_duplicates() {
                Some(batch@)
            } else {
                None::<Seq<i64>>
            },
    {
        let mut r = FromUniqueOrd::new();
        r.extend(batch);
        proof {
            assert(Seq::<i64>::empty() + batch@ =~= batch@);
            assert(Seq::<i64>::empty().to_set() =~= Set::<i64>::empty());
        }
        r
    }

    /// Offers one more batch: the values are appended when they are new and
    /// pairwise distinct; otherwise the collector clears out for good.
    pub fn extend(&mut self, batch: Vec<i64>)
        requires
            old(self).wf(),
        ensures
            final(self).wf(),
            old(self)@ is None ==> final(self)@ is None,
            old(self)@ matches Some(held) ==> final(self)@ == if all_new(held.to_set(), batch@) {
                Some(held + batch@)
            } else {
                None::<Seq<i64>>
            },
    {
        let cur = self.0.take();
        match cur {
            None => {},
            Some(st) => {
                let UniqState { inner, set } = st;
                let ghost s0 = set@;
                let ghost inner0 = inner@;
                let mut inner = inner;
                let mut set = set;
                let mut failed = false;
                let mut i: usize = 0;
                while i < batch.len()
                    invariant
                        i <= batch.len(),
                        s0 == inner0.to_set(),
                        inner0.no_duplicates(),
                        failed ==> !all_new(s0, batch@),
                        !failed ==> set@ == s0.union(batch@.take(i as int).to_set()),
                        !failed ==> all_new(s0, batch@.take(i as int)),
                        !failed ==> inner@ == inner0 + batch@.take(i as int),
                    decreases batch@.len() - i,
                {
                    let x = batch[i];
                    let added = set.insert(x);
                    proof {
                        if !failed {
                            assert(batch@.take(i + 1int) =~= batch@.take(i as int).push(x));
                            lemma_all_new_step(s0, batch@, i as int, added);
                            if added {
                                assert(set@ =~= s0.union(batch@.take(i + 1int).to_set()));
                            }
                        }
                    }
                    if added {
                        inner.push(x);
                        proof {
                            if !failed {
                                assert(inner@ =~= inner0 + batch@.take(i + 1int));
                            }
                        }
                    } else {
                        failed = true;
                    }
                    i = i + 1;
                }
                proof {
                    assert(batch@.take(batch@.len() as int) =~= batch@);
                }
                if !failed {
                    proof {
                        lemma_append_all_new(inner0, batch@);
                    }
                    self.0 = Some(UniqState { inner, set });
                }
            },
        }
    }

    /// The gathered values, unless a duplicate was seen.
    pub fn get(&self) -> (r: Option<&Vec<i64>>)
        ensures
            match r {
                Some(v) => self@ is Some && v@ == self@->Some_0,
                None => self@ is None,
            },
    {
        match &self.0 {
            Some(st) => Some(&st.inner),
            None => None,
        }
    }

    /// Consumes the collector and returns the gathered values, unless a
    /// duplicate was seen.
    pub fn into_inner(self) -> (r: Option<Vec<i64>>)
        ensures
            r is Some <==> self@ is Some,
            r matches Some(v) ==> v@ == self@->Some_0,
    {
        match self.0 {
            Some(st) => Some(st.inner),
            None => None,
        }
    }
}

/// Appending a batch of values that are new and pairwise distinct keeps a
/// vector duplicate-free, and its value set grows by exactly the batch.
proof fn lemma_append_all_new(held: Seq<i64>, v: Seq<i64>)
    requires
        held.no_duplicates(),
        all_new(held.to_set(), v),
    ensures
        (held + v).no_duplicates(),
        (held + v).to_set() == held.to_set().union(v.to_set()),
    decreases v.len(),
{
    let w = held + v;
    assert forall|j1: int, j2: int|
        0 <= j1 < w.len() && 0 <= j2 < w.len() && j1 != j2 implies #[trigger] w[j1]
        != #[trigger] w[j2] by {
        if j1 < held.len() && j2 < held.len() {
        } else if j1 >= held.len() && j2 >= held.len() {
            assert(v[j1 - held.len()] != v[j2 - held.len()]);
        } else {
            let jh = if j1 < held.len() {
                j1
            } else {
                j2
            };
            let jv = if j1 < held.len() {
                j2
            } else {
                j1
            };
            assert(held.contains(held[jh]));
            assert(held.to_set().contains(held[jh]));
            assert(!held.to_set().contains(v[jv - held.len()]));
        }
    }
    assert((held + v).to_set() =~= held.to_set().union(v.to_set()));
}

} // verus!
