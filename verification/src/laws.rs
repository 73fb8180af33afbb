//! What runs compute: laws that hold of every strategy, and laws that relate
//! an adapted or combined strategy to its parts.
//!
//! The laws are stated over the models of the strategies, [`fold_spec`] and
//! [`run_spec`], which the contracts of [`Reduce`](crate::iter::Reduce) speak
//! of. Each has a second half on [`fold_req`] and [`run_req`], so that what a
//! combined strategy asks of a sequence can be had from what its parts ask.
//!
//! What [`Min`] and [`Max`] keep is proved beside them, in
//! [`reductors::min_max`](crate::reductors::min_max).
use crate::iter::{converted, is_default};
use crate::reductor::{
    clones_faithfully, fold_req, fold_spec, run_req, run_spec, Reductor, ReductorPair,
};
use crate::reductors::count::{Count, CountNonZero, NonZeroCount};
use crate::reductors::min_max::{Max, Min, MinMax};
use crate::reductors::product::{Product, State};
use crate::reductors::state::NonEmptyState;
use crate::reductors::sum::Sum;
use core::ops::{Add, Mul};
use vstd::prelude::*;

verus! {

/// Taking no item leaves a run where it is.
pub proof fn lemma_fold_nothing<R: Reductor<A>, A>(state: R::State)
    ensures
        fold_req::<R, A>(state, Seq::empty()),
        fold_spec::<R, A>(state, Seq::empty()) == state,
{
}

/// Taking one sequence and then another is taking the two in a row.
pub proof fn lemma_fold_concat<R: Reductor<A>, A>(state: R::State, head: Seq<A>, tail: Seq<A>)
    ensures
        fold_req::<R, A>(state, head + tail) <==> fold_req::<R, A>(state, head) && fold_req::<
            R,
            A,
        >(fold_spec::<R, A>(state, head), tail),
        fold_spec::<R, A>(state, head + tail) == fold_spec::<R, A>(
            fold_spec::<R, A>(state, head),
            tail,
        ),
    decreases head.len(),
{
    if head.len() == 0 {
        assert(head + tail == tail);
    } else {
        assert((head + tail).drop_first() == head.drop_first() + tail);
        lemma_fold_concat::<R, A>(R::reduce_spec(state, head[0]), head.drop_first(), tail);
    }
}

/// The step of a strategy as a function: what `reduce` makes of a state and
/// an item.
pub open spec fn step<R: Reductor<A>, A>() -> spec_fn(R::State, A) -> R::State {
    |state: R::State, item: A| R::reduce_spec(state, item)
}

/// The state after a sequence is the left fold of the sequence with the step
/// of the strategy, so what vstd proves of left folds holds of runs.
pub proof fn lemma_fold_is_fold_left<R: Reductor<A>, A>(state: R::State, items: Seq<A>)
    ensures
        fold_spec::<R, A>(state, items) == items.fold_left(state, step::<R, A>()),
{
    lemma_fold_is_fold_left_alt::<R, A>(state, items);
    items.lemma_fold_left_alt(state, step::<R, A>());
}

proof fn lemma_fold_is_fold_left_alt<R: Reductor<A>, A>(state: R::State, items: Seq<A>)
    ensures
        fold_spec::<R, A>(state, items) == items.fold_left_alt(state, step::<R, A>()),
    decreases items.len(),
{
    if items.len() > 0 {
        assert(items.subrange(1, items.len() as int) == items.drop_first());
        lemma_fold_is_fold_left_alt::<R, A>(R::reduce_spec(state, items[0]), items.drop_first());
    }
}

/// A strategy that takes every item in every state takes every sequence.
pub proof fn lemma_fold_req_total<R: Reductor<A>, A>(state: R::State, items: Seq<A>)
    requires
        forall|state: R::State, item: A| R::reduce_req(state, item),
    ensures
        fold_req::<R, A>(state, items),
    decreases items.len(),
{
    if items.len() > 0 {
        lemma_fold_req_total::<R, A>(R::reduce_spec(state, items[0]), items.drop_first());
    }
}

/// Whether `state` stands for "nothing seen yet": a run in it takes an item
/// exactly when a run may start with that item, and is then in the state that
/// `new` makes of the item.
pub open spec fn sees_nothing<R: Reductor<A>, A>(state: R::State) -> bool {
    forall|item: A|
        {
            &&& #[trigger] R::reduce_spec(state, item) == R::new_spec(item)
            &&& R::reduce_req(state, item) <==> R::new_req(item)
        }
}

/// A run from a state that stands for "nothing seen yet" is the run made of
/// the items alone.
///
/// It is enough that the state is such a state for the first item: that
/// taking this item from it gives what `new` makes of the item. Then starting
/// there and taking every item ends in the state in which the run ends that
/// starts with `new` on the first item and takes the others. Where the two
/// first steps are also allowed for the same items, so are the two runs.
pub proof fn lemma_fold_is_run<R: Reductor<A>, A>(start: R::State, items: Seq<A>)
    requires
        items.len() > 0,
        R::reduce_spec(start, items[0]) == R::new_spec(items[0]),
    ensures
        fold_spec::<R, A>(start, items) == run_spec::<R, A>(items),
        (R::reduce_req(start, items[0]) <==> R::new_req(items[0])) ==> (fold_req::<R, A>(
            start,
            items,
        ) <==> run_req::<R, A>(items)),
{
}

/// The default state of [`Count`] is zero; it stands for "nothing seen yet",
/// and the count of no items is zero.
pub proof fn lemma_count_of_nothing<A>(start: usize)
    requires
        is_default(start),
    ensures
        start == 0,
        sees_nothing::<Count, A>(start),
        <Count as Reductor<A>>::into_result_spec(fold_spec::<Count, A>(start, Seq::empty()))
            == Count(0),
{
}

/// Counting takes every sequence, and adds the number of its items to the
/// count it started from, as far as `usize` goes.
pub proof fn lemma_count_of_items<A>(start: usize, items: Seq<A>)
    ensures
        fold_req::<Count, A>(start, items),
        fold_spec::<Count, A>(start, items) == if start + items.len() <= usize::MAX {
            (start + items.len()) as usize
        } else {
            usize::MAX
        },
    decreases items.len(),
{
    if items.len() > 0 {
        let next = <Count as Reductor<A>>::reduce_spec(start, items[0]);
        lemma_count_of_items::<A>(next, items.drop_first());
    }
}

/// Counting the items of a sequence that is not empty adds the number of
/// items to the count it started from, and may do so exactly when that sum is
/// a `usize`.
pub proof fn lemma_count_non_zero_of_items<A>(start: NonZeroCount, items: Seq<A>)
    ensures
        fold_req::<CountNonZero, A>(start, items) <==> items.len() == 0 || start@ + items.len()
            <= usize::MAX,
        fold_req::<CountNonZero, A>(start, items) ==> fold_spec::<CountNonZero, A>(start, items)@
            == start@ + items.len(),
    decreases items.len(),
{
    if items.len() > 0 {
        let next = <CountNonZero as Reductor<A>>::reduce_spec(start, items[0]);
        NonZeroCount::lemma_view_of((start@ + 1) as usize);
        lemma_count_non_zero_of_items::<A>(next, items.drop_first());
    }
}

/// The sum of no items, from the default state, is the default of `T`.
pub proof fn lemma_sum_of_nothing<T: Add<Output = T> + Default>(start: T)
    requires
        is_default(start),
    ensures
        <Sum<T> as Reductor<T>>::into_result_spec(fold_spec::<Sum<T>, T>(start, Seq::empty()))
            == Sum(start),
{
}

/// The default of each integer type is zero, and zero stands for "nothing
/// seen yet" in a sum: the sum of no integers, from the default state, is
/// zero.
pub proof fn lemma_integer_sum_of_nothing()
    ensures
        forall|start: u8| #[trigger] is_default(start) ==> start == 0,
        forall|start: u16| #[trigger] is_default(start) ==> start == 0,
        forall|start: u32| #[trigger] is_default(start) ==> start == 0,
        forall|start: u64| #[trigger] is_default(start) ==> start == 0,
        forall|start: u128| #[trigger] is_default(start) ==> start == 0,
        forall|start: usize| #[trigger] is_default(start) ==> start == 0,
        forall|start: i8| #[trigger] is_default(start) ==> start == 0,
        forall|start: i16| #[trigger] is_default(start) ==> start == 0,
        forall|start: i32| #[trigger] is_default(start) ==> start == 0,
        forall|start: i64| #[trigger] is_default(start) ==> start == 0,
        forall|start: i128| #[trigger] is_default(start) ==> start == 0,
        forall|start: isize| #[trigger] is_default(start) ==> start == 0,
        sees_nothing::<Sum<u8>, u8>(0),
        sees_nothing::<Sum<u16>, u16>(0),
        sees_nothing::<Sum<u32>, u32>(0),
        sees_nothing::<Sum<u64>, u64>(0),
        sees_nothing::<Sum<u128>, u128>(0),
        sees_nothing::<Sum<usize>, usize>(0),
        sees_nothing::<Sum<i8>, i8>(0),
        sees_nothing::<Sum<i16>, i16>(0),
        sees_nothing::<Sum<i32>, i32>(0),
        sees_nothing::<Sum<i64>, i64>(0),
        sees_nothing::<Sum<i128>, i128>(0),
        sees_nothing::<Sum<isize>, isize>(0),
{
}

/// The product of no items, from the default state, is what `true` converts
/// into in `T`.
pub proof fn lemma_product_of_nothing<T: Mul<Output = T> + From<bool>>(start: State<T>)
    requires
        is_default(start),
    ensures
        converted(true, start.0),
        <Product<T> as Reductor<T>>::into_result_spec(
            fold_spec::<Product<T>, T>(start, Seq::empty()),
        ) == Product(start.0),
{
}

/// The default state of a product of integers holds one, and one stands for
/// "nothing seen yet" in a product: the product of no integers, from the
/// default state, is one.
pub proof fn lemma_integer_product_of_nothing()
    ensures
        forall|start: State<u8>| #[trigger] is_default(start) ==> start == State(1u8),
        forall|start: State<u16>| #[trigger] is_default(start) ==> start == State(1u16),
        forall|start: State<u32>| #[trigger] is_default(start) ==> start == State(1u32),
        forall|start: State<u64>| #[trigger] is_default(start) ==> start == State(1u64),
        forall|start: State<u128>| #[trigger] is_default(start) ==> start == State(1u128),
        forall|start: State<usize>| #[trigger] is_default(start) ==> start == State(1usize),
        forall|start: State<i8>| #[trigger] is_default(start) ==> start == State(1i8),
        forall|start: State<i16>| #[trigger] is_default(start) ==> start == State(1i16),
        forall|start: State<i32>| #[trigger] is_default(start) ==> start == State(1i32),
        forall|start: State<i64>| #[trigger] is_default(start) ==> start == State(1i64),
        forall|start: State<i128>| #[trigger] is_default(start) ==> start == State(1i128),
        forall|start: State<isize>| #[trigger] is_default(start) ==> start == State(1isize),
        sees_nothing::<Product<u8>, u8>(State(1)),
        sees_nothing::<Product<u16>, u16>(State(1)),
        sees_nothing::<Product<u32>, u32>(State(1)),
        sees_nothing::<Product<u64>, u64>(State(1)),
        sees_nothing::<Product<u128>, u128>(State(1)),
        sees_nothing::<Product<usize>, usize>(State(1)),
        sees_nothing::<Product<i8>, i8>(State(1)),
        sees_nothing::<Product<i16>, i16>(State(1)),
        sees_nothing::<Product<i32>, i32>(State(1)),
        sees_nothing::<Product<i64>, i64>(State(1)),
        sees_nothing::<Product<i128>, i128>(State(1)),
        sees_nothing::<Product<isize>, isize>(State(1)),
{
}

/// The default state of [`Min`] and [`Max`] with an optional result holds
/// `None`; it stands for "nothing seen yet", and the least and the greatest
/// of no items are `None`.
pub proof fn lemma_extremum_of_nothing<T: Ord>(start: NonEmptyState<Option<T>>)
    requires
        is_default(start),
    ensures
        start == NonEmptyState(None::<T>),
        sees_nothing::<Min<Option<T>>, T>(start),
        sees_nothing::<Max<Option<T>>, T>(start),
        <Min<Option<T>> as Reductor<T>>::into_result_spec(
            fold_spec::<Min<Option<T>>, T>(start, Seq::empty()),
        ) == Min(None::<T>),
        <Max<Option<T>> as Reductor<T>>::into_result_spec(
            fold_spec::<Max<Option<T>>, T>(start, Seq::empty()),
        ) == Max(None::<T>),
{
}

/// An `Option` around `R` that has seen an item goes on as `R` does.
pub proof fn lemma_option_goes_on<R: Reductor<A>, A>(state: R::State, items: Seq<A>)
    ensures
        fold_req::<Option<R>, A>(Some(state), items) <==> fold_req::<R, A>(state, items),
        fold_spec::<Option<R>, A>(Some(state), items) == Some(fold_spec::<R, A>(state, items)),
    decreases items.len(),
{
    if items.len() > 0 {
        lemma_option_goes_on::<R, A>(R::reduce_spec(state, items[0]), items.drop_first());
    }
}

/// An `Option` around `R` that has seen nothing makes of one or more items
/// the run that `R` makes of them, and may take them exactly when `R` may
/// make that run.
pub proof fn lemma_option_starts<R: Reductor<A>, A>(items: Seq<A>)
    requires
        items.len() > 0,
    ensures
        fold_req::<Option<R>, A>(None, items) <==> run_req::<R, A>(items),
        fold_spec::<Option<R>, A>(None, items) == Some(run_spec::<R, A>(items)),
{
    lemma_option_goes_on::<R, A>(R::new_spec(items[0]), items.drop_first());
}

/// The default state of the optional adapter is `None`; it stands for
/// "nothing seen yet", and the adapter gives `None` for no items.
pub proof fn lemma_option_of_nothing<R: Reductor<A>, A>(start: Option<R::State>)
    requires
        is_default(start),
    ensures
        start is None,
        sees_nothing::<Option<R>, A>(start),
        fold_req::<Option<R>, A>(start, Seq::empty()),
        <Option<R> as Reductor<A>>::into_result_spec(
            fold_spec::<Option<R>, A>(start, Seq::empty()),
        ) == None::<R>,
{
}

/// The optional adapter gives, for one or more items and from its default
/// state, `Some` of what `R` gives for the run made of these items; and it
/// may take them exactly when `R` may make that run.
pub proof fn lemma_option_of_items<R: Reductor<A>, A>(start: Option<R::State>, items: Seq<A>)
    requires
        is_default(start),
        items.len() > 0,
    ensures
        fold_req::<Option<R>, A>(start, items) <==> run_req::<R, A>(items),
        <Option<R> as Reductor<A>>::into_result_spec(fold_spec::<Option<R>, A>(start, items))
            == Some(R::into_result_spec(run_spec::<R, A>(items))),
{
    lemma_option_starts::<R, A>(items);
}

/// The first items of a sequence of pairs.
pub open spec fn firsts<A1, A2>(items: Seq<(A1, A2)>) -> Seq<A1> {
    items.map_values(|item: (A1, A2)| item.0)
}

/// The second items of a sequence of pairs.
pub open spec fn seconds<A1, A2>(items: Seq<(A1, A2)>) -> Seq<A2> {
    items.map_values(|item: (A1, A2)| item.1)
}

/// Two strategies in a tuple reduce a sequence of pairs as each of them
/// reduces its own side of it: the first strategy the first items, the
/// second the second items. The run may take the pairs exactly when each
/// strategy may take its side.
pub proof fn lemma_tuple_fold<R1: Reductor<A1>, R2: Reductor<A2>, A1, A2>(
    state: (R1::State, R2::State),
    items: Seq<(A1, A2)>,
)
    ensures
        fold_req::<(R1, R2), (A1, A2)>(state, items) <==> {
            &&& fold_req::<R1, A1>(state.0, firsts(items))
            &&& fold_req::<R2, A2>(state.1, seconds(items))
        },
        fold_spec::<(R1, R2), (A1, A2)>(state, items) == (
            fold_spec::<R1, A1>(state.0, firsts(items)),
            fold_spec::<R2, A2>(state.1, seconds(items)),
        ),
    decreases items.len(),
{
    if items.len() > 0 {
        let next = <(R1, R2) as Reductor<(A1, A2)>>::reduce_spec(state, items[0]);
        lemma_tuple_fold::<R1, R2, A1, A2>(next, items.drop_first());
        assert(firsts(items).drop_first() == firsts(items.drop_first()));
        assert(seconds(items).drop_first() == seconds(items.drop_first()));
    }
}

/// The result of two strategies in a tuple, for the run made of a sequence
/// of pairs, is the pair of the results that each gives alone: the first for
/// the first items, the second for the second items.
pub proof fn lemma_tuple_run<R1: Reductor<A1>, R2: Reductor<A2>, A1, A2>(items: Seq<(A1, A2)>)
    requires
        items.len() > 0,
    ensures
        run_req::<(R1, R2), (A1, A2)>(items) <==> {
            &&& run_req::<R1, A1>(firsts(items))
            &&& run_req::<R2, A2>(seconds(items))
        },
        <(R1, R2) as Reductor<(A1, A2)>>::into_result_spec(
            run_spec::<(R1, R2), (A1, A2)>(items),
        ) == (
            R1::into_result_spec(run_spec::<R1, A1>(firsts(items))),
            R2::into_result_spec(run_spec::<R2, A2>(seconds(items))),
        ),
{
    let start = <(R1, R2) as Reductor<(A1, A2)>>::new_spec(items[0]);
    lemma_tuple_fold::<R1, R2, A1, A2>(start, items.drop_first());
    assert(firsts(items).drop_first() == firsts(items.drop_first()));
    assert(seconds(items).drop_first() == seconds(items.drop_first()));
}

/// A tuple of two states that stand for "nothing seen yet" stands for it too.
pub proof fn lemma_tuple_sees_nothing<R1: Reductor<A1>, R2: Reductor<A2>, A1, A2>(
    state: (R1::State, R2::State),
)
    requires
        sees_nothing::<R1, A1>(state.0),
        sees_nothing::<R2, A2>(state.1),
    ensures
        sees_nothing::<(R1, R2), (A1, A2)>(state),
{
    assert forall|item: (A1, A2)|
        {
            &&& #[trigger] <(R1, R2) as Reductor<(A1, A2)>>::reduce_spec(state, item) == <(
                R1,
                R2,
            ) as Reductor<(A1, A2)>>::new_spec(item)
            &&& <(R1, R2) as Reductor<(A1, A2)>>::reduce_req(state, item) <==> <(
                R1,
                R2,
            ) as Reductor<(A1, A2)>>::new_req(item)
        } by {
        assert(R1::reduce_spec(state.0, item.0) == R1::new_spec(item.0));
        assert(R2::reduce_spec(state.1, item.1) == R2::new_spec(item.1));
    }
}

/// Three strategies in a tuple reduce a sequence of triples as each of them
/// reduces its own column of it, `column1` to `column3`: the items at its
/// position, in the order of the sequence.
pub proof fn lemma_triple_fold<
    R1: Reductor<A1>,
    R2: Reductor<A2>,
    R3: Reductor<A3>,
    A1,
    A2,
    A3,
>(
    state: (R1::State, R2::State, R3::State),
    items: Seq<(A1, A2, A3)>,
    column1: Seq<A1>,
    column2: Seq<A2>,
    column3: Seq<A3>,
)
    requires
        column1.len() == items.len(),
        column2.len() == items.len(),
        column3.len() == items.len(),
        forall|i: int| 0 <= i < items.len() ==> #[trigger] column1[i] == items[i].0,
        forall|i: int| 0 <= i < items.len() ==> #[trigger] column2[i] == items[i].1,
        forall|i: int| 0 <= i < items.len() ==> #[trigger] column3[i] == items[i].2,
    ensures
        fold_req::<(R1, R2, R3), (A1, A2, A3)>(state, items) <==> {
            &&& fold_req::<R1, A1>(state.0, column1)
            &&& fold_req::<R2, A2>(state.1, column2)
            &&& fold_req::<R3, A3>(state.2, column3)
        },
        fold_spec::<(R1, R2, R3), (A1, A2, A3)>(state, items) == (
            fold_spec::<R1, A1>(state.0, column1),
            fold_spec::<R2, A2>(state.1, column2),
            fold_spec::<R3, A3>(state.2, column3),
        ),
    decreases items.len(),
{
    if items.len() > 0 {
        lemma_triple_fold::<R1, R2, R3, A1, A2, A3>(
            <(R1, R2, R3) as Reductor<(A1, A2, A3)>>::reduce_spec(state, items[0]),
            items.drop_first(),
            column1.drop_first(),
            column2.drop_first(),
            column3.drop_first(),
        );
    }
}

/// Four strategies in a tuple reduce a sequence of 4-tuples as each of them
/// reduces its own column of it, `column1` to `column4`: the items at its
/// position, in the order of the sequence.
pub proof fn lemma_quadruple_fold<
    R1: Reductor<A1>,
    R2: Reductor<A2>,
    R3: Reductor<A3>,
    R4: Reductor<A4>,
    A1,
    A2,
    A3,
    A4,
>(
    state: (R1::State, R2::State, R3::State, R4::State),
    items: Seq<(A1, A2, A3, A4)>,
    column1: Seq<A1>,
    column2: Seq<A2>,
    column3: Seq<A3>,
    column4: Seq<A4>,
)
    requires
        column1.len() == items.len(),
        column2.len() == items.len(),
        column3.len() == items.len(),
        column4.len() == items.len(),
        forall|i: int| 0 <= i < items.len() ==> #[trigger] column1[i] == items[i].0,
        forall|i: int| 0 <= i < items.len() ==> #[trigger] column2[i] == items[i].1,
        forall|i: int| 0 <= i < items.len() ==> #[trigger] column3[i] == items[i].2,
        forall|i: int| 0 <= i < items.len() ==> #[trigger] column4[i] == items[i].3,
    ensures
        fold_req::<(R1, R2, R3, R4), (A1, A2, A3, A4)>(state, items) <==> {
            &&& fold_req::<R1, A1>(state.0, column1)
            &&& fold_req::<R2, A2>(state.1, column2)
            &&& fold_req::<R3, A3>(state.2, column3)
            &&& fold_req::<R4, A4>(state.3, column4)
        },
        fold_spec::<(R1, R2, R3, R4), (A1, A2, A3, A4)>(state, items) == (
            fold_spec::<R1, A1>(state.0, column1),
            fold_spec::<R2, A2>(state.1, column2),
            fold_spec::<R3, A3>(state.2, column3),
            fold_spec::<R4, A4>(state.3, column4),
        ),
    decreases items.len(),
{
    if items.len() > 0 {
        lemma_quadruple_fold::<R1, R2, R3, R4, A1, A2, A3, A4>(
            <(R1, R2, R3, R4) as Reductor<(A1, A2, A3, A4)>>::reduce_spec(state, items[0]),
            items.drop_first(),
            column1.drop_first(),
            column2.drop_first(),
            column3.drop_first(),
            column4.drop_first(),
        );
    }
}

/// Five strategies in a tuple reduce a sequence of 5-tuples as each of them
/// reduces its own column of it, `column1` to `column5`: the items at its
/// position, in the order of the sequence.
pub proof fn lemma_quintuple_fold<
    R1: Reductor<A1>,
    R2: Reductor<A2>,
    R3: Reductor<A3>,
    R4: Reductor<A4>,
    R5: Reductor<A5>,
    A1,
    A2,
    A3,
    A4,
    A5,
>(
    state: (R1::State, R2::State, R3::State, R4::State, R5::State),
    items: Seq<(A1, A2, A3, A4, A5)>,
    column1: Seq<A1>,
    column2: Seq<A2>,
    column3: Seq<A3>,
    column4: Seq<A4>,
    column5: Seq<A5>,
)
    requires
        column1.len() == items.len(),
        column2.len() == items.len(),
        column3.len() == items.len(),
        column4.len() == items.len(),
        column5.len() == items.len(),
        forall|i: int| 0 <= i < items.len() ==> #[trigger] column1[i] == items[i].0,
        forall|i: int| 0 <= i < items.len() ==> #[trigger] column2[i] == items[i].1,
        forall|i: int| 0 <= i < items.len() ==> #[trigger] column3[i] == items[i].2,
        forall|i: int| 0 <= i < items.len() ==> #[trigger] column4[i] == items[i].3,
        forall|i: int| 0 <= i < items.len() ==> #[trigger] column5[i] == items[i].4,
    ensures
        fold_req::<(R1, R2, R3, R4, R5), (A1, A2, A3, A4, A5)>(state, items) <==> {
            &&& fold_req::<R1, A1>(state.0, column1)
            &&& fold_req::<R2, A2>(state.1, column2)
            &&& fold_req::<R3, A3>(state.2, column3)
            &&& fold_req::<R4, A4>(state.3, column4)
            &&& fold_req::<R5, A5>(state.4, column5)
        },
        fold_spec::<(R1, R2, R3, R4, R5), (A1, A2, A3, A4, A5)>(state, items) == (
            fold_spec::<R1, A1>(state.0, column1),
            fold_spec::<R2, A2>(state.1, column2),
            fold_spec::<R3, A3>(state.2, column3),
            fold_spec::<R4, A4>(state.3, column4),
            fold_spec::<R5, A5>(state.4, column5),
        ),
    decreases items.len(),
{
    if items.len() > 0 {
        lemma_quintuple_fold::<R1, R2, R3, R4, R5, A1, A2, A3, A4, A5>(
            <(R1, R2, R3, R4, R5) as Reductor<(A1, A2, A3, A4, A5)>>::reduce_spec(
                state,
                items[0],
            ),
            items.drop_first(),
            column1.drop_first(),
            column2.drop_first(),
            column3.drop_first(),
            column4.drop_first(),
            column5.drop_first(),
        );
    }
}

/// Whether every item of `items` clones faithfully.
pub open spec fn all_clone_faithfully<A: Clone>(items: Seq<A>) -> bool {
    forall|i: int| 0 <= i < items.len() ==> clones_faithfully(#[trigger] items[i])
}

/// A `ReductorPair` reduces a sequence as each of its strategies reduces that
/// same sequence. It may take the items exactly when both may and every item
/// clones faithfully.
pub proof fn lemma_pair_fold<R1: Reductor<A>, R2: Reductor<A>, A: Clone>(
    state: (R1::State, R2::State),
    items: Seq<A>,
)
    ensures
        fold_req::<ReductorPair<R1, R2>, A>(state, items) <==> {
            &&& all_clone_faithfully(items)
            &&& fold_req::<R1, A>(state.0, items)
            &&& fold_req::<R2, A>(state.1, items)
        },
        fold_spec::<ReductorPair<R1, R2>, A>(state, items) == (
            fold_spec::<R1, A>(state.0, items),
            fold_spec::<R2, A>(state.1, items),
        ),
    decreases items.len(),
{
    if items.len() > 0 {
        let next = <ReductorPair<R1, R2> as Reductor<A>>::reduce_spec(state, items[0]);
        lemma_pair_fold::<R1, R2, A>(next, items.drop_first());
        lemma_all_clone_faithfully(items);
    }
}

/// The result of a `ReductorPair`, for the run made of a sequence, holds the
/// results that each of its strategies gives alone for that same sequence.
pub proof fn lemma_pair_run<R1: Reductor<A>, R2: Reductor<A>, A: Clone>(items: Seq<A>)
    requires
        items.len() > 0,
    ensures
        run_req::<ReductorPair<R1, R2>, A>(items) <==> {
            &&& all_clone_faithfully(items)
            &&& run_req::<R1, A>(items)
            &&& run_req::<R2, A>(items)
        },
        <ReductorPair<R1, R2> as Reductor<A>>::into_result_spec(
            run_spec::<ReductorPair<R1, R2>, A>(items),
        ) == ReductorPair(
            R1::into_result_spec(run_spec::<R1, A>(items)),
            R2::into_result_spec(run_spec::<R2, A>(items)),
        ),
{
    let start = <ReductorPair<R1, R2> as Reductor<A>>::new_spec(items[0]);
    lemma_pair_fold::<R1, R2, A>(start, items.drop_first());
    lemma_all_clone_faithfully(items);
}

/// A `ReductorPair` of two states that stand for "nothing seen yet" stands
/// for it too.
pub proof fn lemma_pair_sees_nothing<R1: Reductor<A>, R2: Reductor<A>, A: Clone>(
    state: (R1::State, R2::State),
)
    requires
        sees_nothing::<R1, A>(state.0),
        sees_nothing::<R2, A>(state.1),
    ensures
        sees_nothing::<ReductorPair<R1, R2>, A>(state),
{
    assert forall|item: A|
        {
            &&& #[trigger] <ReductorPair<R1, R2> as Reductor<A>>::reduce_spec(state, item)
                == <ReductorPair<R1, R2> as Reductor<A>>::new_spec(item)
            &&& <ReductorPair<R1, R2> as Reductor<A>>::reduce_req(state, item) <==> <ReductorPair<
                R1,
                R2,
            > as Reductor<A>>::new_req(item)
        } by {
        assert(R1::reduce_spec(state.0, item) == R1::new_spec(item));
        assert(R2::reduce_spec(state.1, item) == R2::new_spec(item));
    }
}

/// [`MinMax`] reduces a sequence as the pair of [`Min`] and [`Max`] does, so
/// its result holds what each of the two gives alone for that same sequence.
pub proof fn lemma_min_max_fold<A: Clone + Ord>(
    state: (NonEmptyState<A>, NonEmptyState<A>),
    items: Seq<A>,
)
    ensures
        fold_req::<MinMax<A>, A>(state, items) <==> {
            &&& all_clone_faithfully(items)
            &&& fold_req::<Min<A>, A>(state.0, items)
            &&& fold_req::<Max<A>, A>(state.1, items)
        },
        fold_spec::<MinMax<A>, A>(state, items) == (
            fold_spec::<Min<A>, A>(state.0, items),
            fold_spec::<Max<A>, A>(state.1, items),
        ),
    decreases items.len(),
{
    if items.len() > 0 {
        let next = <MinMax<A> as Reductor<A>>::reduce_spec(state, items[0]);
        lemma_min_max_fold::<A>(next, items.drop_first());
        lemma_all_clone_faithfully(items);
    }
}

/// The result of [`MinMax`], for the run made of a sequence, holds the least
/// item as [`Min`] finds it and the greatest as [`Max`] finds it.
pub proof fn lemma_min_max_run<A: Clone + Ord>(items: Seq<A>)
    requires
        items.len() > 0,
    ensures
        run_req::<MinMax<A>, A>(items) <==> {
            &&& all_clone_faithfully(items)
            &&& run_req::<Min<A>, A>(items)
            &&& run_req::<Max<A>, A>(items)
        },
        <MinMax<A> as Reductor<A>>::into_result_spec(run_spec::<MinMax<A>, A>(items)) == (MinMax {
            min: <Min<A> as Reductor<A>>::into_result_spec(run_spec::<Min<A>, A>(items)).0,
            max: <Max<A> as Reductor<A>>::into_result_spec(run_spec::<Max<A>, A>(items)).0,
        }),
{
    let start = <MinMax<A> as Reductor<A>>::new_spec(items[0]);
    lemma_min_max_fold::<A>(start, items.drop_first());
    lemma_all_clone_faithfully(items);
}

/// Every item of a sequence clones faithfully exactly when the first does
/// and every one of the others.
proof fn lemma_all_clone_faithfully<A: Clone>(items: Seq<A>)
    requires
        items.len() > 0,
    ensures
        all_clone_faithfully(items) <==> clones_faithfully(items[0]) && all_clone_faithfully(
            items.drop_first(),
        ),
{
    let rest = items.drop_first();
    if all_clone_faithfully(items) {
        assert forall|i: int| 0 <= i < rest.len() implies clones_faithfully(#[trigger] rest[i]) by {
            assert(clones_faithfully(items[i + 1]));
        }
    }
    if clones_faithfully(items[0]) && all_clone_faithfully(rest) {
        assert forall|i: int| 0 <= i < items.len() implies clones_faithfully(
            #[trigger] items[i],
        ) by {
            if i > 0 {
                assert(clones_faithfully(rest[i - 1]));
            }
        }
    }
}

} // verus!
