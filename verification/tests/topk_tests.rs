use collected::TopK;

#[test]
fn top_k_test() {
    let topk = TopK::from_batch(3, vec![3, 1, 8, 2, 7, 7, 0, 2]);
    assert_eq!(topk.into_sorted_vec(), vec![8, 7, 7]);
}

#[test]
fn top_k_two_batches() {
    let mut topk = TopK::from_batch(3, vec![3, 1, 8]);
    topk.offer_batch(vec![2, 7, 7, 0, 2]);
    assert_eq!(topk.into_sorted_vec(), vec![8, 7, 7]);
}

#[test]
fn top_k_fewer_than_capacity() {
    let topk = TopK::from_batch(5, vec![1, 2, 3]);
    assert_eq!(topk.into_sorted_vec(), vec![3, 2, 1]);
}

#[test]
fn top_k_zero_capacity() {
    let topk = TopK::from_batch(0, vec![5, 5, 5]);
    assert_eq!(topk.into_sorted_vec(), Vec::<i64>::new());
}

#[test]
fn top_k_chunking_equivalence() {
    let whole = TopK::from_batch(2, vec![4, 9, 1, 7, 9]);
    let mut chunked = TopK::empty(2);
    chunked.offer_batch(vec![4]);
    chunked.offer_batch(vec![]);
    chunked.offer_batch(vec![9, 1]);
    chunked.offer_batch(vec![7, 9]);
    assert_eq!(whole.into_sorted_vec(), chunked.into_sorted_vec());
}

#[test]
fn top_k_order_independence() {
    let a = TopK::from_batch(3, vec![5, -1, 2, 5, 0, 8]);
    let b = TopK::from_batch(3, vec![8, 0, 5, 2, -1, 5]);
    assert_eq!(a.into_sorted_vec(), b.into_sorted_vec());
}

#[test]
fn top_k_capacity_invariant() {
    for total in 0..6usize {
        let batch: Vec<i64> = (0..total as i64).collect();
        let topk = TopK::from_batch(3, batch);
        assert_eq!(topk.finalize_unordered().len(), total.min(3));
    }
}

#[test]
fn top_k_reproducible() {
    let mut first = TopK::from_batch(2, vec![6, 2]);
    first.offer_batch(vec![9, 6]);
    let mut first_bag = first.finalize_unordered();
    first_bag.sort();

    let mut second = TopK::from_batch(2, vec![6, 2]);
    second.offer_batch(vec![9, 6]);
    let mut second_bag = second.finalize_unordered();
    second_bag.sort();

    assert_eq!(first_bag, second_bag);
    assert_eq!(first_bag, vec![6, 9]);
}

#[test]
fn top_k_empty_batch_is_noop() {
    let mut topk = TopK::from_batch(2, vec![3, 4]);
    topk.offer_batch(vec![]);
    assert_eq!(topk.into_sorted_vec(), vec![4, 3]);
}

#[test]
fn top_k_with_negatives() {
    let topk = TopK::from_batch(2, vec![-7, -3, -9, -1]);
    assert_eq!(topk.into_sorted_vec(), vec![-1, -3]);
}

#[test]
fn top_k_heap_access() {
    let topk = TopK::from_batch(2, vec![10, 30, 20, 40]);
    assert_eq!(topk.get_heap().len(), 2);
    let heap = topk.into_heap();
    assert_eq!(heap.into_vec_desc(), vec![40, 30]);
}
