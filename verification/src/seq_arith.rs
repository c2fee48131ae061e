//! Spec-level folds over sequences of machine integers: running sum,
//! product, maximum and minimum, and the predicates saying that every
//! intermediate value of such a fold stays representable.

use vstd::prelude::*;

verus! {

/// The sum of the elements of `s`, folded left to right.
pub open spec fn seq_sum(s: Seq<i64>) -> int
    decreases s.len(),
{
    if s.len() == 0 {
        0
    } else {
        seq_sum(s.drop_last()) + s.last()
    }
}

/// The product of the elements of `s`, folded left to right.
pub open spec fn seq_prod(s: Seq<i64>) -> int
    decreases s.len(),
{
    if s.len() == 0 {
        1
    } else {
        seq_prod(s.drop_last()) * s.last()
    }
}

/// The largest element of a non-empty sequence.
pub open spec fn seq_max(s: Seq<i64>) -> i64
    recommends
        s.len() > 0,
    decreases s.len(),
{
    if s.len() <= 1 {
        s.last()
    } else {
        let m = seq_max(s.drop_last());
        if s.last() > m {
            s.last()
        } else {
            m
        }
    }
}

/// The smallest element of a non-empty sequence.
pub open spec fn seq_min(s: Seq<i64>) -> i64
    recommends
        s.len() > 0,
    decreases s.len(),
{
    if s.len() <= 1 {
        s.last()
    } else {
        let m = seq_min(s.drop_last());
        if s.last() < m {
            s.last()
        } else {
            m
        }
    }
}

/// The larger of two values.
pub open spec fn max_i64(a: i64, b: i64) -> i64 {
    if a >= b {
        a
    } else {
        b
    }
}

/// The smaller of two values.
pub open spec fn min_i64(a: i64, b: i64) -> i64 {
    if a <= b {
        a
    } else {
        b
    }
}

/// Whether a mathematical integer is representable as an `i64`.
pub open spec fn fits_i64(x: int) -> bool {
    i64::MIN <= x <= i64::MAX
}

/// Every intermediate value of summing `s` left to right on top of `base`
/// is representable; summing that way can then not overflow.
pub open spec fn partial_sums_fit(base: int, s: Seq<i64>) -> bool {
    forall|j: int| 0 <= j <= s.len() ==> fits_i64(base + seq_sum(#[trigger] s.take(j)))
}

/// Every intermediate value of multiplying `s` left to right on top of
/// `base` is representable; multiplying that way can then not overflow.
pub open spec fn partial_prods_fit(base: int, s: Seq<i64>) -> bool {
    forall|j: int| 0 <= j <= s.len() ==> fits_i64(base * seq_prod(#[trigger] s.take(j)))
}

/// The starting value a fold with no neutral element works from: the held
/// value if there is one, and the given neutral value otherwise.
pub open spec fn fold_base(held: Option<i64>, neutral: int) -> int {
    match held {
        Some(a) => a as int,
        None => neutral,
    }
}

} // verus!
