use collected::{AddVal, Count, First, Last, MaxVal, MinVal, MulVal, Noop, ProductVal, SumVal};

#[test]
fn add_test() {
    let mut sum: AddVal = AddVal::from_batch(std::iter::repeat(1).take(100).collect());
    assert_eq!(sum.unwrap(), 100);

    sum.extend((1..=100).collect());
    assert_eq!(sum.unwrap(), 5150);
}

#[test]
fn sum_test() {
    let mut sum: SumVal = SumVal::from_batch(std::iter::repeat(1).take(100).collect());
    assert_eq!(*sum.get(), 100);

    sum.extend((1..=100).collect());
    assert_eq!(*sum.get(), 5150);
}

#[test]
fn mul_test() {
    let mut prod: MulVal = MulVal::from_batch(std::iter::repeat(2).take(10).collect());
    assert_eq!(prod.unwrap(), 1024);

    prod.extend((1..=5).collect());
    assert_eq!(prod.unwrap(), 122880);
}

#[test]
fn product_test() {
    let mut prod: ProductVal = ProductVal::from_batch(std::iter::repeat(2).take(10).collect());
    assert_eq!(*prod.get(), 1024);

    prod.extend((1..=5).collect());
    assert_eq!(*prod.get(), 122880);
}

#[test]
fn max_test() {
    let mut max: MaxVal = MaxVal::from_batch((1..100).collect());
    assert_eq!(max.unwrap(), 99);

    max.extend((100..200).collect());
    assert_eq!(max.unwrap(), 199);
}

#[test]
fn min_test() {
    let mut min: MinVal = MinVal::from_batch((1..100).collect());
    assert_eq!(min.unwrap(), 1);

    min.extend(((-200)..(-100)).collect());
    assert_eq!(min.unwrap(), -200);
}

#[test]
fn count_test() {
    {
        let mut count: Count<i64> = Count::new();
        count.extend((0..10).collect());
        assert!(count.get() == 10);
    }

    {
        let mut count: Count<i64> = Count::from_batch((0..10).collect());
        assert!(count.get() == 10);

        count.extend((10..20).collect());
        assert!(count.get() == 20);

        count.extend(Vec::new());
        assert!(count.get() == 20);
    }
}

#[test]
fn first_test() {
    {
        let mut first: First<i64> = First::new();
        assert!(first.get() == None);

        first.extend((0..10).collect());
        assert!(first.get() == Some(&0));
    }

    {
        let mut first: First<i64> = First::from_batch((0..10).collect());
        assert!(first.get() == Some(&0));

        first.extend((10..20).collect());
        assert!(first.get() == Some(&0));

        first.extend(Vec::new());
        assert!(first.get() == Some(&0));
    }
}

#[test]
fn last_test() {
    {
        let mut last: Last<i64> = Last::new();
        assert!(last.get() == None);

        last.extend((0..10).collect());
        assert!(last.get() == Some(&9));
    }

    {
        let mut last: Last<i64> = Last::from_batch((0..10).collect());
        assert!(last.get() == Some(&9));

        last.extend((10..20).collect());
        assert!(last.get() == Some(&19));

        last.extend(Vec::new());
        assert!(last.get() == Some(&19));
    }
}

#[test]
fn noop_test() {
    let mut noop: Noop<i64> = Noop::new();
    noop.extend((0..10).collect());
}

#[test]
fn add_empty_batch_holds_nothing() {
    let sum: AddVal = AddVal::from_batch(Vec::new());
    assert_eq!(sum.into_inner(), None);
}

#[test]
fn mul_empty_batch_holds_nothing() {
    let prod: MulVal = MulVal::from_batch(Vec::new());
    assert_eq!(prod.into_inner(), None);
}

#[test]
fn sum_of_nothing_is_zero() {
    let sum = SumVal::new();
    assert_eq!(sum.into_inner(), 0);
}

#[test]
fn product_of_nothing_is_one() {
    let prod = ProductVal::new();
    assert_eq!(prod.into_inner(), 1);
}

#[test]
fn min_max_with_negatives() {
    let max: MaxVal = MaxVal::from_batch(vec![-5, -2, -9]);
    assert_eq!(max.into_inner(), Some(-2));

    let min: MinVal = MinVal::from_batch(vec![-5, -2, -9]);
    assert_eq!(min.into_inner(), Some(-9));
}

#[test]
fn sum_with_negatives() {
    let mut sum = SumVal::from_batch(vec![10, -4, -7]);
    assert_eq!(*sum.get(), -1);
    sum.extend(vec![1]);
    assert_eq!(sum.into_inner(), 0);
}
