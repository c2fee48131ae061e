//! A set collector that demands unique input values, backed by an ordered set.

use vstd::prelude::*;
use std::collections::BTreeSet;
use crate::distinct::{all_new, lemma_all_new_step};

verus! {

broadcast use vstd::seq_lib::group_seq_properties;

/// A collection that takes unique values into a `BTreeSet`. It expects
/// unique input values: on the first duplicate it empties out and ignores
/// every future value.
pub struct UniqueBTreeSet(Option<BTreeSet<i64>>);

impl View for UniqueBTreeSet {
    type V = Option<Set<i64>>;

    closed spec fn view(&self) -> Option<Set<i64>> {
        match self.0 {
            Some(set) => Some(set@),
            None => None,
        }
    }
}

impl UniqueBTreeSet {
    /// A collector holding an empty set.
    pub fn new() -> (r: UniqueBTreeSet)
        ensures
            r@ == Some(Set::<i64>::empty()),
    {
        UniqueBTreeSet(Some(BTreeSet::new()))
    }

    /// A collector offered all of `batch`: its set of values when they are
    /// pairwise distinct, and nothing otherwise.
    pub fn from_batch(batch: Vec<i64>) -> (r: UniqueBTreeSet)
        ensures
            r@ == if batch@.no_duplicates() {
                Some(batch@.to_set())
            } else {
                None::<Set<i64>>
            },
    {
        let mut r = UniqueBTreeSet::new();
        r.extend(batch);
        proof {
            assert(Set::<i64>::empty().union(batch@.to_set()) =~= batch@.to_set());
        }
        r
    }

    /// Offers one more batch: the values join the set when they are new and
    /// pairwise distinct; otherwise the collector empties out for good.
    pub fn extend(&mut self, batch: Vec<i64>)
        ensures
            old(self)@ is None ==> final(self)@ is None,
            old(self)@ matches Some(s) ==> final(self)@ == if all_new(s, batch@) {
                Some(s.union(batch@.to_set()))
            } else {
                None::<Set<i64>>
            },
    {
        let cur = self.0.take();
        match cur {
            None => {},
            Some(set) => {
                let ghost s0 = set@;
                let mut set = set;
                let mut failed = false;
                let mut i: usize = 0;
                while i < batch.len()
                    invariant
                        i <= batch.len(),
                        failed ==> !all_new(s0, batch@),
                        !failed ==> set@ == s0.union(batch@.take(i as int).to_set()),
                        !failed ==> all_new(s0, batch@.take(i as int)),
                    decreases batch@.len() - i,
                {
                    let x = batch[i];
                    let added = set.insert(x);
                    proof {
                        if !failed {
                            assert(batch@.take(i + 1int) =~= batch@.take(i as int).push(x));
                            lemma_all_new_step(s0, batch@, i as int, added);
                            if added {
                                assert(set@ =~= s0.union(batch@.take(i + 1int).to_set()));
                            }
                        }
                    }
                    if !added {
                        failed = true;
                    }
                    i = i + 1;
                }
                proof {
                    assert(batch@.take(batch@.len() as int) =~= batch@);
                }
                if !failed {
                    self.0 = Some(set);
                }
            },
        }
    }

    /// The held set; the collector must not have seen a duplicate.
    pub fn unwrap(self) -> (r: BTreeSet<i64>)
        requires
            self@ is Some,
        ensures
            r@ == self@->Some_0,
    {
        self.0.unwrap()
    }

    /// The held set, unless a duplicate was seen.
    pub fn get(&self) -> (r: Option<&BTreeSet<i64>>)
        ensures
            match r {
                Some(set) => self@ is Some && set@ == self@->Some_0,
                None => self@ is None,
            },
    {
        self.0.as_ref()
    }

    /// Consumes the collector and returns the held set, unless a duplicate
    /// was seen.
    pub fn into_inner(self) -> (r: Option<BTreeSet<i64>>)
        ensures
            r is Some <==> self@ is Some,
            r matches Some(set) ==> set@ == self@->Some_0,
    {
        self.0
    }
}

} // verus!
