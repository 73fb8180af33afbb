use reductor::{Count, CountNonZero, Max, Min, NonZeroCount, Product, Reduce, ReductorPair, Sum};

#[test]
fn building_blocks() {
    let iter = 0..10;

    let Sum::<u32>(sum) = iter.clone().reduce_with();
    let Product::<u32>(product) = iter.clone().fold_with(2);
    let Count(count) = iter.clone().reduce_with();
    assert_eq!(sum, iter.clone().sum());
    assert_eq!(product, iter.clone().product::<u32>() * 2);
    assert_eq!(count, iter.clone().count());

    let min: Option<Min<u32>> = iter.clone().reduce_with();
    let Max::<Option<u32>>(max) = iter.clone().reduce_with();
    assert_eq!(min.unwrap(), Min(iter.start));
    assert_eq!(max.unwrap(), iter.last().unwrap());
}

#[test]
fn two_strategies_over_pairs() {
    let iter = 0..10;

    let (Sum::<usize>(sum), Product::<usize>(product)) =
        iter.clone().map(|x| (x, x * 2)).reduce_with();

    assert_eq!(sum, iter.clone().sum());
    assert_eq!(product, iter.map(|x| x * 2).product());
}

#[test]
fn two_strategies_over_pairs_of_different_types() {
    let iter = (5..10).map(|x| (x, -(x as i64)));

    let (Sum(sum), Product(product)) = iter.clone().reduce_with::<(Sum<u64>, Product<i64>)>();

    assert_eq!(sum, iter.clone().map(|(x, ..)| x).sum());
    assert_eq!(product, iter.clone().map(|(.., x)| x).product())
}

#[test]
fn two_strategies_in_tandem() {
    let iter = 0..10;

    let ReductorPair(Min::<usize>(min), Max::<usize>(max)) =
        iter.clone().reduce_with::<Option<_>>().unwrap();

    assert_eq!(min, iter.start);
    assert_eq!(max, iter.end - 1);

    let ReductorPair(Min::<Option<usize>>(min), Sum::<usize>(sum)) = iter.clone().reduce_with();

    assert_eq!(min.unwrap(), iter.start);
    assert_eq!(sum, iter.sum());
}

#[test]
fn a_tree_of_results_in_one_loop() {
    let iter = (0_i32..100).filter(|x| x % 2 != 0).map(|x| (x, x.leading_zeros()));

    let ReductorPair(
        Count(count),
        (Sum::<i32>(sum), ReductorPair(Min::<u32>(min), Max::<u32>(max))),
    ) = iter.clone().reduce_with::<Option<_>>().unwrap();

    assert_eq!(count, iter.clone().count());
    assert_eq!(sum, iter.clone().map(|(x, ..)| x).sum());
    assert_eq!(min, iter.clone().map(|(.., x)| x).min().unwrap());
    assert_eq!(max, iter.map(|(.., x)| x).max().unwrap());
}

#[test]
fn count_and_greatest_of_the_even_numbers() {
    let iter = (0..100).filter(|&i| i % 2 == 0);

    let ReductorPair(CountNonZero(count), Max::<usize>(max)) =
        iter.clone().reduce_with::<Option<_>>().unwrap();

    assert_eq!(count, NonZeroCount::new(50).unwrap());
    assert_eq!(max, iter.last().unwrap());
}
