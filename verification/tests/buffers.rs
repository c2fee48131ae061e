use collected::{ExactArray, FillArray, LastN};

#[test]
fn last_n_test() {
    let last_n: LastN<i64> = LastN::from_batch(3, vec![3, 1, 5, 2]);
    assert_eq!(last_n.into_inner(), vec![1, 5, 2]);

    let last_n: LastN<i64> = LastN::from_batch(3, vec![]);
    assert_eq!(last_n.into_inner(), vec![]);

    let last_n: LastN<i64> = LastN::from_batch(0, vec![2, 4, 1]);
    assert_eq!(last_n.into_inner(), vec![]);
}

#[test]
fn last_n_across_batches() {
    let mut last_n: LastN<i64> = LastN::from_batch(2, vec![1, 2, 3]);
    last_n.extend(vec![4]);
    assert_eq!(last_n.into_inner(), vec![3, 4]);
}

#[test]
fn exact_array_test() {
    let array: ExactArray<i64> = ExactArray::from_batch(3, vec![3, 5, 1]);
    assert_eq!(array.into_array(), Some(vec![3, 5, 1]));

    let array: ExactArray<i64> = ExactArray::from_batch(3, vec![3, 5, 1, 4]);
    assert_eq!(array.into_array(), None);

    let array: ExactArray<i64> = ExactArray::from_batch(3, vec![3]);
    assert_eq!(array.into_array(), None);

    let array: ExactArray<usize> = ExactArray::from_batch(0, vec![]);
    assert_eq!(array.into_array(), Some(vec![]));
}

#[test]
fn exact_array_overflow_is_permanent() {
    let mut array: ExactArray<i64> = ExactArray::from_batch(2, vec![1, 2, 3]);
    array.extend(Vec::new());
    assert_eq!(array.into_array(), None);
}

#[test]
fn fill_array_test() {
    let array: FillArray<i64> = FillArray::from_batch(3, vec![3, 5, 1]);
    assert_eq!(array.into_array(), Some(vec![3, 5, 1]));

    let array: FillArray<i64> = FillArray::from_batch(3, vec![3, 5, 1, 4]);
    assert_eq!(array.into_array(), Some(vec![3, 5, 1]));

    let array: FillArray<i64> = FillArray::from_batch(3, vec![3]);
    assert_eq!(array.into_array(), None);

    let array: FillArray<usize> = FillArray::from_batch(0, vec![]);
    assert_eq!(array.into_array(), Some(vec![]));
}

#[test]
fn fill_array_fills_across_batches() {
    let mut array: FillArray<i64> = FillArray::from_batch(3, vec![7]);
    array.extend(vec![8, 9, 10]);
    assert_eq!(array.into_array(), Some(vec![7, 8, 9]));
}
