use collected::{
    FromUniqueHash, FromUniqueOrd, GroupHashMap, UniqueBTreeSet, UniqueHashSet, UniqueIndexSet,
    UniquifyHash, UniquifyOrd,
};
use indexmap::IndexSet;
use std::collections::{BTreeSet, HashMap, HashSet};

#[test]
fn unique_hash_test() {
    let unique = FromUniqueHash::from_batch(vec![1, 2, 3]);
    assert_eq!(unique.into_inner(), Some(vec![1, 2, 3]));

    let unique = FromUniqueHash::from_batch(vec![1, 2, 3, 3]);
    assert_eq!(unique.into_inner(), None);

    let mut unique = FromUniqueHash::from_batch(vec![1, 2, 3]);
    unique.extend(vec![4]);
    assert_eq!(unique.get(), Some(&vec![1, 2, 3, 4]));
    unique.extend(vec![4]);
    assert_eq!(unique.get(), None);
}

#[test]
fn unique_ord_test() {
    let unique = FromUniqueOrd::from_batch(vec![1, 2, 3]);
    assert_eq!(unique.into_inner(), Some(vec![1, 2, 3]));

    let unique = FromUniqueOrd::from_batch(vec![1, 2, 3, 3]);
    assert_eq!(unique.into_inner(), None);

    let mut unique = FromUniqueOrd::from_batch(vec![1, 2, 3]);
    unique.extend(vec![4]);
    assert_eq!(unique.get(), Some(&vec![1, 2, 3, 4]));
    unique.extend(vec![4]);
    assert_eq!(unique.get(), None);
}

#[test]
fn unique_btree_set_unque_hash_set_test() {
    let mut set = UniqueBTreeSet::from_batch(vec![1, 2, 3]);
    assert_eq!(set.get(), Some(&BTreeSet::from_iter(vec![1, 2, 3])));

    set.extend(vec![4, 5]);
    assert_eq!(set.get(), Some(&BTreeSet::from_iter(vec![1, 2, 3, 4, 5])));
    set.extend(vec![6, 6]);
    assert_eq!(set.get(), None);
}

#[test]
fn unique_hash_set_unque_hash_set_test() {
    let mut set = UniqueHashSet::from_batch(vec![1, 2, 3]);
    assert_eq!(set.get(), Some(&HashSet::from_iter(vec![1, 2, 3])));

    set.extend(vec![4, 5]);
    assert_eq!(set.get(), Some(&HashSet::from_iter(vec![1, 2, 3, 4, 5])));
    set.extend(vec![6, 6]);
    assert_eq!(set.get(), None);
}

#[test]
fn unique_index_set_unque_hash_set_test() {
    let mut set = UniqueIndexSet::from_batch(vec![1, 2, 3]);
    assert_eq!(set.get(), Some(&IndexSet::from_iter(vec![1, 2, 3])));

    set.extend(vec![4, 5]);
    assert_eq!(set.get(), Some(&IndexSet::from_iter(vec![1, 2, 3, 4, 5])));
    set.extend(vec![6, 6]);
    assert_eq!(set.get(), None);
}

#[test]
fn unique_index_set_keeps_insertion_order() {
    let set = UniqueIndexSet::from_batch(vec![30, 10, 20]);
    let inner = set.into_inner().unwrap();
    let in_order: Vec<i64> = inner.into_iter().collect();
    assert_eq!(in_order, vec![30, 10, 20]);
}

#[test]
fn uniquify_hash_uniquify_hash_test() {
    let unique = UniquifyHash::from_batch(vec![1, 2, 3]);
    assert_eq!(unique.into_inner(), vec![1, 2, 3]);

    let unique = UniquifyHash::from_batch(vec![1, 2, 2, 3, 3]);
    assert_eq!(unique.into_inner(), vec![1, 2, 3]);

    let mut unique = UniquifyHash::from_batch(vec![1, 2, 3]);
    unique.extend(vec![4]);
    assert_eq!(unique.get(), &vec![1, 2, 3, 4]);
    unique.extend(vec![4]);
    assert_eq!(unique.get(), &vec![1, 2, 3, 4]);
}

#[test]
fn uniquify_ord_uniquify_hash_test() {
    let unique = UniquifyOrd::from_batch(vec![1, 2, 3]);
    assert_eq!(unique.into_inner(), vec![1, 2, 3]);

    let unique = UniquifyOrd::from_batch(vec![1, 2, 2, 3, 3]);
    assert_eq!(unique.into_inner(), vec![1, 2, 3]);

    let mut unique = UniquifyOrd::from_batch(vec![1, 2, 3]);
    unique.extend(vec![4]);
    assert_eq!(unique.get(), &vec![1, 2, 3, 4]);
    unique.extend(vec![4]);
    assert_eq!(unique.get(), &vec![1, 2, 3, 4]);
}

#[test]
fn group_hash_map_test() {
    let mut map = GroupHashMap::from_batch(vec![(1, 1), (1, 2), (2, 3)]);
    let expected: HashMap<i64, Vec<i64>> =
        HashMap::from_iter(vec![(1, vec![1, 2]), (2, vec![3])]);
    assert_eq!(map.get(), &expected);

    map.extend(vec![(2, 4), (3, 5)]);
    let expected: HashMap<i64, Vec<i64>> =
        HashMap::from_iter(vec![(1, vec![1, 2]), (2, vec![3, 4]), (3, vec![5])]);
    assert_eq!(map.get(), &expected);
}

#[test]
fn group_hash_map_empty() {
    let map = GroupHashMap::from_batch(Vec::new());
    assert!(map.into_inner().is_empty());
}
