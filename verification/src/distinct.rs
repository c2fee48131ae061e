//! Spec-level notions of distinctness used by the collectors that enforce
//! or drop duplicate values: whether a batch brings only values never seen
//! before, and which values of a batch are kept when duplicates are
//! silently dropped.

use vstd::prelude::*;

verus! {

broadcast use vstd::seq_lib::group_seq_properties;

/// Every element of `v` is new: `v` has no duplicates and none of its
/// elements was already seen in `s`.
pub open spec fn all_new(s: Set<i64>, v: Seq<i64>) -> bool {
    &&& v.no_duplicates()
    &&& forall|j: int| 0 <= j < v.len() ==> !s.contains(#[trigger] v[j])
}

/// The elements of `v` kept when values already seen in `s`, and repeated
/// values of `v` itself, are silently dropped: the first occurrence of each
/// value not in `s`, in order.
pub open spec fn kept_new(s: Set<i64>, v: Seq<i64>) -> Seq<i64>
    decreases v.len(),
{
    if v.len() == 0 {
        Seq::empty()
    } else {
        let pre = kept_new(s, v.drop_last());
        if s.contains(v.last()) || v.drop_last().contains(v.last()) {
            pre
        } else {
            pre.push(v.last())
        }
    }
}

/// One step of dropping duplicates from a batch: the kept prefix grows by
/// the next element exactly when that element is new.
pub proof fn lemma_kept_new_step(s: Set<i64>, v: Seq<i64>, i: int)
    requires
        0 <= i < v.len(),
    ensures
        kept_new(s, v.take(i + 1)) == if s.contains(v[i]) || v.take(i).contains(v[i]) {
            kept_new(s, v.take(i))
        } else {
            kept_new(s, v.take(i)).push(v[i])
        },
{
    assert(v.take(i + 1).drop_last() =~= v.take(i));
    assert(v.take(i + 1).last() == v[i]);
}

/// One step of offering a batch to a set of seen values: if the next
/// element is new, the prefix of new elements grows by it; if it is not,
/// the whole batch fails to be new.
pub proof fn lemma_all_new_step(s: Set<i64>, v: Seq<i64>, i: int, added: bool)
    requires
        0 <= i < v.len(),
        all_new(s, v.take(i)),
        added <==> !(s.union(v.take(i).to_set()).contains(v[i])),
    ensures
        added ==> all_new(s, v.take(i + 1)),
        !added ==> !all_new(s, v),
{
    assert(v.take(i + 1) =~= v.take(i).push(v[i]));
    if added {
        assert forall|j: int| 0 <= j < i + 1 implies !s.contains(#[trigger] v.take(i + 1)[j]) by {
            if j < i {
                assert(v.take(i)[j] == v.take(i + 1)[j]);
            }
        }
        assert forall|j1: int, j2: int|
            0 <= j1 < i + 1 && 0 <= j2 < i + 1 && j1 != j2 implies #[trigger] v.take(i + 1)[j1]
            != #[trigger] v.take(i + 1)[j2] by {
            if j1 < i && j2 < i {
            } else {
                let jo = if j1 < i {
                    j1
                } else {
                    j2
                };
                if v.take(i + 1)[j1] == v.take(i + 1)[j2] {
                    assert(v.take(i).contains(v.take(i)[jo]));
                    assert(v.take(i).to_set().contains(v[i]));
                }
            }
        }
    } else {
        if s.contains(v[i]) {
            assert(!all_new(s, v));
        } else {
            assert(v.take(i).to_set().contains(v[i]));
            let j = choose|j: int| 0 <= j < i && v.take(i)[j] == v[i];
            assert(v[j] == v[i]);
            assert(!v.no_duplicates());
        }
    }
}

} // verus!
