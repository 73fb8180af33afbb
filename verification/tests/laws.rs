use reductor::reductors::product::State;
use reductor::reductors::state::NonEmptyState;
use reductor::{Count, Max, Min, MinMax, Product, Reduce, Reductor, ReductorPair, Sum};

const SEQUENCES: [&[i64]; 6] = [
    &[3, 1, 4, 1, 5, 9, 2, 6],
    &[-7],
    &[0, 0, 0],
    &[i64::MIN, i64::MAX],
    &[10, 9, 8, 7],
    &[-3, -2, -1, 0, 1],
];

#[test]
fn taking_two_sequences_in_a_row() {
    for items in SEQUENCES {
        for cut in 0..=items.len() {
            let (head, tail) = items.split_at(cut);
            let Min::<i64>(whole) = items.iter().copied().fold_with(100i64);
            let Min::<i64>(of_head) = head.iter().copied().fold_with(100i64);
            let Min::<i64>(in_a_row) = tail.iter().copied().fold_with(of_head);
            assert_eq!(whole, in_a_row);
            let Count(count) = items.iter().fold_with(7usize);
            let Count(count_of_head) = head.iter().fold_with(7usize);
            let Count(count_in_a_row) = tail.iter().fold_with(count_of_head);
            assert_eq!(count, count_in_a_row);
        }
    }
}

#[test]
fn counting_adds_the_number_of_items() {
    for items in SEQUENCES {
        let Count(from_zero) = items.iter().reduce_with();
        assert_eq!(from_zero, items.len());
        let Count(from_forty) = items.iter().fold_with(40usize);
        assert_eq!(from_forty, 40 + items.len());
        let Count(near_the_end) = items.iter().fold_with(usize::MAX - 2);
        assert_eq!(near_the_end, (usize::MAX - 2).saturating_add(items.len()));
    }
}

#[test]
fn default_states_stand_for_nothing_seen() {
    for item in [0u8, 1, 2, 200, 255] {
        assert_eq!(
            <Count as Reductor<u8>>::reduce(usize::default(), item),
            <Count as Reductor<u8>>::new(item)
        );
        assert_eq!(
            <Sum<u8> as Reductor<u8>>::reduce(u8::default(), item),
            <Sum<u8> as Reductor<u8>>::new(item)
        );
        let State(from_default) = <Product<u8> as Reductor<u8>>::reduce(State::default(), item);
        let State(from_item) = <Product<u8> as Reductor<u8>>::new(item);
        assert_eq!(from_default, from_item);
        assert_eq!(
            <Option<Max<u8>> as Reductor<u8>>::reduce(None, item).map(|state| state.0),
            <Option<Max<u8>> as Reductor<u8>>::new(item).map(|state| state.0)
        );
        let NonEmptyState(unset) =
            <Min<Option<u8>> as Reductor<u8>>::reduce(NonEmptyState::default(), item);
        let NonEmptyState(set) = <Min<Option<u8>> as Reductor<u8>>::new(item);
        assert_eq!(unset, set);
    }
}

#[test]
fn a_run_from_nothing_is_the_run_of_the_items() {
    for items in SEQUENCES {
        let Sum::<i128>(from_default) = items.iter().map(|item| *item as i128).reduce_with();
        let mut state = <Sum<i128> as Reductor<i128>>::new(items[0] as i128);
        for item in &items[1..] {
            state = <Sum<i128> as Reductor<i128>>::reduce(state, *item as i128);
        }
        assert_eq!(Sum(from_default), <Sum<i128> as Reductor<i128>>::into_result(state));
    }
}

#[test]
fn the_least_and_the_greatest_are_items_and_bounds() {
    for items in SEQUENCES {
        let Min(least) = items.iter().copied().reduce_with::<Option<Min<i64>>>().unwrap();
        let Max(greatest) = items.iter().copied().reduce_with::<Option<Max<i64>>>().unwrap();
        assert!(items.contains(&least));
        assert!(items.contains(&greatest));
        assert!(items.iter().all(|item| least <= *item && *item <= greatest));
        let both: Option<MinMax<i64>> = items.iter().copied().reduce_with();
        assert_eq!(both, Some(MinMax { min: least, max: greatest }));
    }
}

#[test]
fn an_optional_result_is_set_exactly_for_items() {
    for items in SEQUENCES {
        for len in 0..=items.len() {
            let taken = &items[..len];
            let least: Option<Min<i64>> = taken.iter().copied().reduce_with();
            assert_eq!(least.is_some(), len > 0);
            assert_eq!(least.map(|Min(least)| least), taken.iter().copied().min());
        }
    }
}

#[test]
fn columns_of_triples_are_reduced_alone() {
    let triples = [(1u8, -1i16, 'x'), (2, -2, 'a'), (3, -3, 'm'), (4, -4, 'b')];
    let (Sum::<u8>(sum), Product::<i16>(product), greatest): (
        Sum<u8>,
        Product<i16>,
        Option<Max<char>>,
    ) = triples.into_iter().reduce_with();
    let Sum::<u8>(sum_alone) = triples.into_iter().map(|triple| triple.0).reduce_with();
    let Product::<i16>(product_alone) = triples.into_iter().map(|triple| triple.1).reduce_with();
    let greatest_alone: Option<Max<char>> =
        triples.into_iter().map(|triple| triple.2).reduce_with();
    assert_eq!((sum, product, greatest), (sum_alone, product_alone, greatest_alone));
    assert_eq!((sum, product, greatest), (10, 24, Some(Max('x'))));
}

#[test]
fn a_pair_agrees_with_its_strategies_on_every_sequence() {
    for items in SEQUENCES {
        let pair: Option<ReductorPair<Min<i64>, Count>> = items.iter().copied().reduce_with();
        let least: Option<Min<i64>> = items.iter().copied().reduce_with();
        let count: Option<Count> = items.iter().copied().reduce_with();
        assert_eq!(pair.map(|pair| pair.0), least);
        assert_eq!(pair.map(|pair| pair.1), count);
    }
}
