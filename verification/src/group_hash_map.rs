//! A collector that groups offered `(key, value)` pairs by key.

use vstd::prelude::*;
use std::collections::HashMap;

verus! {

/// The map obtained from `m` by appending, pair by pair, each value of `s`
/// to the group of its key; a key not yet present starts an empty group.
pub open spec fn grouped(m: Map<i64, Seq<i64>>, s: Seq<(i64, i64)>) -> Map<i64, Seq<i64>>
    decreases s.len(),
{
    if s.len() == 0 {
        m
    } else {
        let m2 = grouped(m, s.drop_last());
        let kv = s.last();
        m2.insert(
            kv.0,
            (if m2.dom().contains(kv.0) {
                m2[kv.0]
            } else {
                Seq::empty()
            }).push(kv.1),
        )
    }
}

/// A collection that groups the offered tuples `(key, value)` by key,
/// keeping for each key the sequence of its values in encounter order.
pub struct GroupHashMap {
    map: HashMap<i64, Vec<i64>>,
}

impl View for GroupHashMap {
    type V = Map<i64, Seq<i64>>;

    closed spec fn view(&self) -> Map<i64, Seq<i64>> {
        self.map@.map_values(|v: Vec<i64>| v@)
    }
}

impl GroupHashMap {
    /// A collector holding no groups yet.
    pub fn new() -> (r: GroupHashMap)
        ensures
            r@ == Map::<i64, Seq<i64>>::empty(),
    {
        let r = GroupHashMap { map: HashMap::new() };
        proof {
            assert(r@ =~= Map::<i64, Seq<i64>>::empty());
        }
        r
    }

    /// A collector offered all of `batch`, pair by pair.
    pub fn from_batch(batch: Vec<(i64, i64)>) -> (r: GroupHashMap)
        ensures
            r@ == grouped(Map::<i64, Seq<i64>>::empty(), batch@),
    {
        let mut r = GroupHashMap::new();
        r.extend(batch);
        r
    }

    /// Offers one more batch of pairs: each value joins the group of its
    /// key, in order.
    pub fn extend(&mut self, batch: Vec<(i64, i64)>)
        ensures
            final(self)@ == grouped(old(self)@, batch@),
    {
        let mut i: usize = 0;
        while i < batch.len()
            invariant
                i <= batch.len(),
                self@ == grouped(old(self)@, batch@.take(i as int)),
            decreases batch@.len() - i,
        {
            let (k, val) = batch[i];
            let ghost pre = self@;
            let got = self.map.remove(&k);
            let mut group = match got {
                Some(g) => g,
                None => Vec::new(),
            };
            group.push(val);
            proof {
                assert(group@ == (if pre.dom().contains(k) {
                    pre[k]
                } else {
                    Seq::<i64>::empty()
                }).push(val));
            }
            self.map.insert(k, group);
            proof {
                lemma_grouped_step(old(self)@, batch@, i as int);
                assert(self@ =~= pre.insert(k, group@));
            }
            i = i + 1;
        }
        proof {
            assert(batch@.take(batch@.len() as int) =~= batch@);
        }
    }

    /// The groups gathered so far, as the underlying hash map.
    pub fn get(&self) -> (r: &HashMap<i64, Vec<i64>>)
        ensures
            r@.dom() == self@.dom(),
            forall|k: i64| #[trigger] self@.dom().contains(k) ==> r@[k]@ == self@[k],
    {
        proof {
            assert(self.map@.dom() =~= self@.dom());
        }
        &self.map
    }

    /// Consumes the collector and returns the underlying hash map of
    /// groups.
    pub fn into_inner(self) -> (r: HashMap<i64, Vec<i64>>)
        ensures
            r@.dom() == self@.dom(),
            forall|k: i64| #[trigger] self@.dom().contains(k) ==> r@[k]@ == self@[k],
    {
        proof {
            assert(self.map@.dom() =~= self@.dom());
        }
        self.map
    }
}

/// Grouping one more pair appends its value to the group of its key.
proof fn lemma_grouped_step(m: Map<i64, Seq<i64>>, s: Seq<(i64, i64)>, i: int)
    requires
        0 <= i < s.len(),
    ensures
        grouped(m, s.take(i + 1)) == grouped(m, s.take(i)).insert(
            s[i].0,
            (if grouped(m, s.take(i)).dom().contains(s[i].0) {
                grouped(m, s.take(i))[s[i].0]
            } else {
                Seq::empty()
            }).push(s[i].1),
        ),
{
    assert(s.take(i + 1).drop_last() =~= s.take(i));
    assert(s.take(i + 1).last() == s[i]);
}

} // verus!
