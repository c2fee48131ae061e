//! A set collector that demands unique input values, backed by the
//! insertion-ordered set of the `indexmap` crate.

use vstd::prelude::*;
use crate::distinct::{all_new, lemma_all_new_step};

verus! {

broadcast use vstd::seq_lib::group_seq_properties;

#[verifier::external_type_specification]
#[verifier::external_body]
#[verifier::reject_recursive_types(T)]
#[verifier::reject_recursive_types(S)]
pub struct ExIndexSet<T, S>(indexmap::IndexSet<T, S>);

/// The elements held by an `IndexSet<i64>`, in insertion order.
pub uninterp spec fn index_set_elems(s: indexmap::IndexSet<i64>) -> Seq<i64>;

/// Relies on `indexmap::IndexSet::new`: creates an empty set.
#[verifier::external_body]
fn index_set_new() -> (s: indexmap::IndexSet<i64>)
    ensures
        index_set_elems(s) == Seq::<i64>::empty(),
{
    indexmap::IndexSet::new()
}

/// Relies on `indexmap::IndexSet::insert`: a value not yet present is
/// appended at the end and `true` is returned; a value already present
/// leaves the set unchanged and returns `false`.
#[verifier::external_body]
fn index_set_insert(s: &mut indexmap::IndexSet<i64>, v: i64) -> (r: bool)
    ensures
        r == !index_set_elems(*old(s)).contains(v),
        index_set_elems(*final(s)) == if index_set_elems(*old(s)).contains(v) {
            index_set_elems(*old(s))
        } else {
            index_set_elems(*old(s)).push(v)
        },
{
    s.insert(v)
}

/// A collection that takes unique values into an `IndexSet`, which keeps
/// them in insertion order. It expects unique input values: on the first
/// duplicate it empties out and ignores every future value.
pub struct UniqueIndexSet(Option<indexmap::IndexSet<i64>>);

impl View for UniqueIndexSet {
    type V = Option<Seq<i64>>;

    closed spec fn view(&self) -> Option<Seq<i64>> {
        match self.0 {
            Some(set) => Some(index_set_elems(set)),
            None => None,
        }
    }
}

impl UniqueIndexSet {
    /// A collector holding an empty set.
    pub fn new() -> (r: UniqueIndexSet)
        ensures
            r@ == Some(Seq::<i64>::empty()),
    {
        UniqueIndexSet(Some(index_set_new()))
    }

    /// A collector offered all of `batch`: the batch itself, order kept,
    /// when its values are pairwise distinct, and nothing otherwise.
    pub fn from_batch(batch: Vec<i64>) -> (r: UniqueIndexSet)
        ensures
            r@ == if batch@.no_duplicates() {
                Some(batch@)
            } else {
                None::<Seq<i64>>
            },
    {
        let mut r = UniqueIndexSet::new();
        r.extend(batch);
        proof {
            assert(Seq::<i64>::empty() + batch@ =~= batch@);
            assert(Seq::<i64>::empty().to_set() =~= Set::<i64>::empty());
        }
        r
    }

    /// Offers one more batch: the values are appended in order when they
    /// are new and pairwise distinct; otherwise the collector empties out
    /// for good.
    pub fn extend(&mut self, batch: Vec<i64>)
        ensures
            old(self)@ is None ==> final(self)@ is None,
            old(self)@ matches Some(held) ==> final(self)@ == if all_new(held.to_set(), batch@) {
                Some(held + batch@)
            } else {
                None::<Seq<i64>>
            },
    {
        let cur = self.0.take();
        match cur {
            None => {},
            Some(set) => {
                let ghost held0 = index_set_elems(set);
                let ghost s0 = held0.to_set();
                let mut set = set;
                let mut failed = false;
                let mut i: usize = 0;
                while i < batch.len()
                    invariant
                        i <= batch.len(),
                        failed ==> !all_new(s0, batch@),
                        !failed ==> index_set_elems(set) == held0 + batch@.take(i as int),
                        !failed ==> all_new(s0, batch@.take(i as int)),
                        s0 == held0.to_set(),
                    decreases batch@.len() - i,
                {
                    let x = batch[i];
                    let ghost epre = index_set_elems(set);
                    let added = index_set_insert(&mut set, x);
                    proof {
                        if !failed {
                            assert(batch@.take(i + 1int) =~= batch@.take(i as int).push(x));
                            assert(epre.contains(x) <==> s0.union(
                                batch@.take(i as int).to_set(),
                            ).contains(x));
                            lemma_all_new_step(s0, batch@, i as int, added);
                            if added {
                                assert(index_set_elems(set) =~= held0 + batch@.take(i + 1int));
                            }
                        }
                    }
                    if !added {
                        failed = true;
                    }
                    i = i + 1;
                }
                proof {
                    assert(batch@.take(batch@.len() as int) =~= batch@);
                }
                if !failed {
                    self.0 = Some(set);
                }
            },
        }
    }

    /// The held set; the collector must not have seen a duplicate.
    pub fn unwrap(self) -> (r: indexmap::IndexSet<i64>)
        requires
            self@ is Some,
        ensures
            index_set_elems(r) == self@->Some_0,
    {
        self.0.unwrap()
    }

    /// The held set, unless a duplicate was seen.
    pub fn get(&self) -> (r: Option<&indexmap::IndexSet<i64>>)
        ensures
            match r {
                Some(set) => self@ is Some && index_set_elems(*set) == self@->Some_0,
                None => self@ is None,
            },
    {
        self.0.as_ref()
    }

    /// Consumes the collector and returns the held set, unless a duplicate
    /// was seen.
    pub fn into_inner(self) -> (r: Option<indexmap::IndexSet<i64>>)
        ensures
            r is Some <==> self@ is Some,
            r matches Some(set) ==> index_set_elems(set) == self@->Some_0,
    {
        self.0
    }
}

} // verus!
