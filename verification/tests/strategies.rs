use reductor::reductors::product::State;
use reductor::reductors::state::NonEmptyState;
use reductor::{
    Count, CountNonZero, Max, Min, MinMax, NonZeroCount, Product, Reduce, Reductor, Sum,
};
use std::cmp::Ordering;

#[test]
fn test_sum_borrowed() {
    let Sum::<f64>(_) = [].iter().reduce_with();
}

#[test]
fn test_product_borrowed() {
    let Product::<f64>(_) = [].iter().reduce_with();
}

#[test]
fn sum_of_one_to_ten() {
    let Sum::<i32>(sum) = (1..=10).reduce_with();
    assert_eq!(sum, 55);
}

#[test]
fn product_of_one_to_ten() {
    let Product::<u64>(product) = (1..=10).reduce_with();
    assert_eq!(product, 3628800);
}

#[test]
fn count_of_one_to_ten() {
    let Count(count) = (1..=10).reduce_with();
    assert_eq!(count, 10);
}

#[test]
fn sum_of_nothing_is_zero() {
    let Sum::<u8>(narrow) = Vec::<u8>::new().into_iter().reduce_with();
    let Sum::<i128>(wide) = Vec::<i128>::new().into_iter().reduce_with();
    let Sum::<usize>(size) = Vec::<usize>::new().into_iter().reduce_with();
    assert_eq!((narrow, wide, size), (0, 0, 0));
}

#[test]
fn product_of_nothing_is_one() {
    let Product::<u8>(narrow) = Vec::<u8>::new().into_iter().reduce_with();
    let Product::<i128>(wide) = Vec::<i128>::new().into_iter().reduce_with();
    let Product::<isize>(size) = Vec::<isize>::new().into_iter().reduce_with();
    assert_eq!((narrow, wide, size), (1, 1, 1));
}

#[test]
fn count_of_nothing_is_zero() {
    let Count(count) = Vec::<char>::new().into_iter().reduce_with();
    assert_eq!(count, 0);
}

#[test]
fn product_starts_from_one_in_every_integer_type() {
    assert_eq!(State::<u8>::default().0, 1);
    assert_eq!(State::<u16>::default().0, 1);
    assert_eq!(State::<u32>::default().0, 1);
    assert_eq!(State::<u64>::default().0, 1);
    assert_eq!(State::<u128>::default().0, 1);
    assert_eq!(State::<usize>::default().0, 1);
    assert_eq!(State::<i8>::default().0, 1);
    assert_eq!(State::<i16>::default().0, 1);
    assert_eq!(State::<i32>::default().0, 1);
    assert_eq!(State::<i64>::default().0, 1);
    assert_eq!(State::<i128>::default().0, 1);
    assert_eq!(State::<isize>::default().0, 1);
}

#[test]
fn sum_and_product_of_no_floats() {
    let Sum::<f32>(sum) = Vec::<f32>::new().into_iter().reduce_with();
    let Product::<f32>(product) = Vec::<f32>::new().into_iter().reduce_with();
    assert_eq!((sum, product), (0.0, 1.0));
    let Product::<f64>(halved) = [0.5f64, 3.0].iter().reduce_with();
    assert_eq!(halved, 1.5);
}

#[test]
fn sums_and_products_of_floats_keep_to_their_arithmetic() {
    let Sum::<f64>(sum) = [1.0, f64::NAN, 3.0].into_iter().reduce_with();
    assert!(sum.is_nan());
    let Sum::<f64>(sum) = [1.0, f64::INFINITY, 3.0].into_iter().reduce_with();
    assert_eq!(sum, f64::INFINITY);
    let Product::<f32>(product) = [2.0, f32::NEG_INFINITY].iter().reduce_with();
    assert_eq!(product, f32::NEG_INFINITY);
    let Product::<f32>(product) = [0.0, f32::INFINITY].iter().reduce_with();
    assert!(product.is_nan());
}

#[test]
fn defaults_of_the_results() {
    assert_eq!(Sum::<u32>::default(), Sum(0));
    assert_eq!(Product::<u32>::default(), Product(1));
    assert_eq!(Count::default(), Count(0));
    let State(one) = State::<i16>::default();
    assert_eq!(one, 1);
}

#[test]
fn sum_steps() {
    assert_eq!(<Sum<i32> as Reductor<i32>>::new(7), 7);
    assert_eq!(<Sum<i32> as Reductor<i32>>::reduce(7, -9), -2);
    assert_eq!(<Sum<i32> as Reductor<i32>>::into_result(-2), Sum(-2));
    assert_eq!(<Sum<u8> as Reductor<u8>>::reduce(200, 55), 255);
}

#[test]
fn product_steps() {
    let State(first) = <Product<i32> as Reductor<i32>>::new(7);
    assert_eq!(first, 7);
    let State(next) = <Product<i32> as Reductor<i32>>::reduce(State(7), -3);
    assert_eq!(next, -21);
    assert_eq!(<Product<i32> as Reductor<i32>>::into_result(State(-21)), Product(-21));
    let State(most) = <Product<u8> as Reductor<u8>>::reduce(State(51), 5);
    assert_eq!(most, 255);
}

#[test]
fn sum_and_product_of_borrowed_items() {
    let items = [2u32, 3, 7];
    let Sum::<u32>(sum) = items.iter().reduce_with();
    let Product::<u32>(product) = items.iter().reduce_with();
    assert_eq!((sum, product), (12, 42));
    assert_eq!(items, [2, 3, 7]);
}

#[test]
fn sum_and_product_from_an_explicit_start() {
    let Sum::<u32>(sum) = (0..10u32).fold_with(100u32);
    assert_eq!(sum, 145);
    let Product::<u32>(product) = (1..5u32).fold_with(2u32);
    assert_eq!(product, 48);
    let Product::<f64>(halves) = [0.5f64, 0.5].into_iter().fold_with(8.0f64);
    assert_eq!(halves, 2.0);
}

#[test]
fn count_steps() {
    assert_eq!(<Count as Reductor<char>>::new('a'), 1);
    assert_eq!(<Count as Reductor<char>>::reduce(1, 'b'), 2);
    assert_eq!(<Count as Reductor<char>>::into_result(2), Count(2));
}

#[test]
fn count_stops_at_the_greatest_value() {
    assert_eq!(<Count as Reductor<()>>::reduce(usize::MAX - 1, ()), usize::MAX);
    assert_eq!(<Count as Reductor<()>>::reduce(usize::MAX, ()), usize::MAX);
    let Count(count) = [(), ()].into_iter().fold_with(usize::MAX - 1);
    assert_eq!(count, usize::MAX);
}

#[test]
fn non_zero_count_is_never_zero() {
    assert_eq!(NonZeroCount::new(0), None);
    assert_eq!(NonZeroCount::new(1).map(NonZeroCount::get), Some(1));
    assert_eq!(NonZeroCount::new(usize::MAX).map(NonZeroCount::get), Some(usize::MAX));
}

#[test]
fn count_non_zero_steps() {
    let first = <CountNonZero as Reductor<char>>::new('a');
    assert_eq!(first.get(), 1);
    let second = <CountNonZero as Reductor<char>>::reduce(first, 'b');
    assert_eq!(second.get(), 2);
    let CountNonZero(count) = <CountNonZero as Reductor<char>>::into_result(second);
    assert_eq!(count, NonZeroCount::new(2).unwrap());
    let nearly = NonZeroCount::new(usize::MAX - 1).unwrap();
    assert_eq!(<CountNonZero as Reductor<char>>::reduce(nearly, 'c').get(), usize::MAX);
}

#[test]
fn count_non_zero_of_a_sequence() {
    let counted: Option<CountNonZero> = (0..100).filter(|i| i % 2 == 0).reduce_with();
    assert_eq!(counted, Some(CountNonZero(NonZeroCount::new(50).unwrap())));
    let nothing: Option<CountNonZero> = (0..0).reduce_with();
    assert_eq!(nothing, None);
}

#[test]
fn min_through_the_optional_adapter() {
    let nothing: Option<Min<i32>> = Vec::<i32>::new().into_iter().reduce_with();
    assert_eq!(nothing, None);
    let least: Option<Min<i32>> = [3, 1, 4, 1, 5].into_iter().reduce_with();
    assert_eq!(least, Some(Min(1)));
}

#[test]
fn max_through_the_optional_adapter() {
    let nothing: Option<Max<i32>> = Vec::<i32>::new().into_iter().reduce_with();
    assert_eq!(nothing, None);
    let greatest: Option<Max<i32>> = [3, 1, 4, 1, 5].into_iter().reduce_with();
    assert_eq!(greatest, Some(Max(5)));
}

#[test]
fn min_and_max_with_an_optional_result() {
    let Min::<Option<u32>>(least) = (0..10).reduce_with();
    let Max::<Option<u32>>(greatest) = (0..10).reduce_with();
    assert_eq!((least, greatest), (Some(0), Some(9)));
    let Min::<Option<u32>>(no_least) = (0..0).reduce_with();
    let Max::<Option<u32>>(no_greatest) = (0..0).reduce_with();
    assert_eq!((no_least, no_greatest), (None, None));
}

#[test]
fn min_and_max_steps() {
    let NonEmptyState(first) = <Min<i8> as Reductor<i8>>::new(4);
    assert_eq!(first, 4);
    let NonEmptyState(lower) = <Min<i8> as Reductor<i8>>::reduce(NonEmptyState(4), -4);
    assert_eq!(lower, -4);
    let NonEmptyState(kept) = <Min<i8> as Reductor<i8>>::reduce(NonEmptyState(-4), 0);
    assert_eq!(kept, -4);
    assert_eq!(<Min<i8> as Reductor<i8>>::into_result(NonEmptyState(-4)), Min(-4));
    let NonEmptyState(higher) = <Max<i8> as Reductor<i8>>::reduce(NonEmptyState(4), 9);
    assert_eq!(higher, 9);
    let NonEmptyState(still) = <Max<i8> as Reductor<i8>>::reduce(NonEmptyState(9), 4);
    assert_eq!(still, 9);
    assert_eq!(<Max<i8> as Reductor<i8>>::into_result(NonEmptyState(9)), Max(9));
}

#[test]
fn min_from_an_explicit_start() {
    let Min::<u32>(least) = [7u32, 3, 9].into_iter().fold_with(5u32);
    assert_eq!(least, 3);
    let Min::<u32>(start) = [7u32, 8, 9].into_iter().fold_with(5u32);
    assert_eq!(start, 5);
    let Max::<Option<u32>>(greatest) = [7u32, 3, 9].into_iter().fold_with(Some(20u32));
    assert_eq!(greatest, Some(20));
}

#[derive(Debug, Clone, Copy)]
struct Keyed {
    key: u8,
    tag: char,
}

impl PartialEq for Keyed {
    fn eq(&self, other: &Self) -> bool {
        self.key == other.key
    }
}

impl Eq for Keyed {}

impl PartialOrd for Keyed {
    fn partial_cmp(&self, other: &Self) -> Option<Ordering> {
        Some(self.cmp(other))
    }
}

impl Ord for Keyed {
    fn cmp(&self, other: &Self) -> Ordering {
        self.key.cmp(&other.key)
    }
}

#[test]
fn ties_keep_the_first_least_and_the_last_greatest() {
    let items = [
        Keyed { key: 2, tag: 'a' },
        Keyed { key: 1, tag: 'b' },
        Keyed { key: 2, tag: 'c' },
        Keyed { key: 1, tag: 'd' },
    ];
    let least: Option<Min<Keyed>> = items.into_iter().reduce_with();
    let greatest: Option<Max<Keyed>> = items.into_iter().reduce_with();
    assert_eq!(least.unwrap().0.tag, 'b');
    assert_eq!(greatest.unwrap().0.tag, 'c');
}

#[test]
fn min_max_in_one_pass() {
    let both: Option<MinMax<i32>> = [3, 1, 4, 1, 5].into_iter().reduce_with();
    assert_eq!(both, Some(MinMax { min: 1, max: 5 }));
    let single: Option<MinMax<i32>> = [7].into_iter().reduce_with();
    assert_eq!(single, Some(MinMax { min: 7, max: 7 }));
    let nothing: Option<MinMax<i32>> = Vec::<i32>::new().into_iter().reduce_with();
    assert_eq!(nothing, None);
}

#[test]
fn non_empty_state_from_a_value() {
    let NonEmptyState(value) = NonEmptyState::from(12u8);
    assert_eq!(value, 12);
    let NonEmptyState(nothing) = NonEmptyState::<Option<u8>>::default();
    assert_eq!(nothing, None);
    let State(factor) = State::from(12u8);
    assert_eq!(factor, 12);
}
