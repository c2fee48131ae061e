//! Collector types that reduce batches of values to a bounded summary:
//! running folds (sum, product, extremum, count, first and last), wrappers
//! that enforce or drop duplicate values, a grouping map, and a bounded
//! top-K selector that keeps the K largest values seen so far.

pub mod add;
pub mod count;
pub mod distinct;
pub mod exact_array;
pub mod fill_array;
pub mod first;
pub mod from_unique_hash;
pub mod from_unique_ord;
pub mod group_hash_map;
pub mod heap;
pub mod last;
pub mod last_n;
pub mod max;
pub mod min;
pub mod mul;
pub mod noop;
pub mod product;
pub mod seq_arith;
pub mod sum;
pub mod topk;
pub mod unique_btree_set;
pub mod unique_hash_set;
pub mod unique_index_set;
pub mod uniquify_hash;
pub mod uniquify_ord;

pub use add::AddVal;
pub use count::Count;
pub use exact_array::ExactArray;
pub use fill_array::FillArray;
pub use first::First;
pub use from_unique_hash::FromUniqueHash;
pub use from_unique_ord::FromUniqueOrd;
pub use group_hash_map::GroupHashMap;
pub use last::Last;
pub use last_n::LastN;
pub use max::MaxVal;
pub use min::MinVal;
pub use mul::MulVal;
pub use noop::Noop;
pub use product::ProductVal;
pub use sum::SumVal;
pub use topk::TopK;
pub use unique_btree_set::UniqueBTreeSet;
pub use unique_hash_set::UniqueHashSet;
pub use unique_index_set::UniqueIndexSet;
pub use uniquify_hash::UniquifyHash;
pub use uniquify_ord::UniquifyOrd;
