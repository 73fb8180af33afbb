//! The two ways to run a strategy over an iterator.
use crate::reductor::{fold_req, fold_spec, Reductor};
use vstd::prelude::*;
use vstd::std_specs::iter::IteratorSpec;

verus! {

/// `From::from` of a type into itself, which std implements for every type
/// (`impl<T> From<T> for T`) and documents as returning its argument
/// unchanged. [`Reduce::fold_with`] converts with it wherever the first state
/// is handed over as a state, and the contract here is what makes that state
/// known.
pub assume_specification<V>[ <V as std::convert::From<V>>::from ](value: V) -> (same: V)
    ensures
        same == value,
;

/// Whether `state` is a value that `S::default()` may return.
///
/// It is the default state of a strategy whose state is `S`. For the types
/// whose `default` says what it returns there is one such value, and that is
/// then known of `state`: zero for an integer, `None` for an `Option`.
pub open spec fn is_default<S: Default>(state: S) -> bool {
    call_ensures(S::default, (), state)
}

/// Whether `state` is a value that `S::from(init)` may return.
///
/// It is the state that a start value converts into. For the conversions
/// that say what they return there is one such value: `init` itself where
/// `init` is a state already, and the wrapped `init` for the state types of
/// this library.
pub open spec fn converted<I, S: From<I>>(init: I, state: S) -> bool {
    call_ensures(S::from, (init,), state)
}

/// Takes everything that `iter` still yields into `state`.
fn fold_from<I, R>(iter: I, state: R::State) -> (end: R::State) where
    I: Iterator,
    R: Reductor<I::Item>,

    requires
        iter.obeys_prophetic_iter_laws(),
        iter.decrease() is Some,
        fold_req::<R, I::Item>(state, iter.remaining()),
    ensures
        end == fold_spec::<R, I::Item>(state, iter.remaining()),
{
    let ghost items = iter.remaining();
    let ghost start = state;
    let mut iter = iter;
    let mut state = state;
    loop
        invariant
            iter.obeys_prophetic_iter_laws(),
            iter.decrease() is Some,
            fold_req::<R, I::Item>(state, iter.remaining()),
            fold_spec::<R, I::Item>(state, iter.remaining()) == fold_spec::<R, I::Item>(
                start,
                items,
            ),
        ensures
            state == fold_spec::<R, I::Item>(start, items),
        decreases iter.decrease()->0,
    {
        match iter.next() {
            Some(item) => {
                state = R::reduce(state, item);
            },
            None => {
                break;
            },
        }
    }
    state
}

/// Reducing an iterator with a [`Reductor`].
///
/// Every iterator has these two methods. Both take the items in the order in
/// which the iterator yields them, each exactly once, and turn the last state
/// into the result; they differ only in where the first state comes from.
///
/// The contracts speak of the items that the iterator is going to yield,
/// `self.remaining()`. They ask that the iterator keeps to the laws that vstd
/// states for `next` and that it has a measure by which it ends, as the
/// iterators of `Vec`, of slices and of ranges do, and that the strategy may
/// take the items from the first state.
pub trait Reduce: Iterator + Sized {
    /// Reduces the iterator from the default state of the strategy.
    ///
    /// Like [`Iterator::reduce`], with the strategy `R` in place of a
    /// closure. The result is that of the run that starts in
    /// `R::State::default()` and takes every item; for an iterator that
    /// yields nothing it is the result of the default state itself.
    ///
    /// A strategy whose state has no default is run inside an `Option`:
    /// `reduce_with::<Option<R>>()`.
    fn reduce_with<R>(self) -> (result: R) where R: Reductor<Self::Item>, R::State: Default
        requires
            self.obeys_prophetic_iter_laws(),
            self.decrease() is Some,
            forall|start: R::State| #[trigger]
                is_default(start) ==> fold_req::<R, Self::Item>(start, self.remaining()),
        ensures
            exists|start: R::State| #[trigger]
                is_default(start) && result == R::into_result_spec(
                    fold_spec::<R, Self::Item>(start, self.remaining()),
                ),
    {
        let start = R::State::default();
        assert(is_default(start));
        R::into_result(fold_from::<Self, R>(self, start))
    }

    /// Reduces the iterator from the state that `init` converts into.
    ///
    /// Like [`Iterator::fold`], with the strategy `R` in place of a closure.
    /// The result is that of the run that starts in `R::State::from(init)`
    /// and takes every item; for an iterator that yields nothing it is the
    /// result of that first state.
    fn fold_with<R, I>(self, init: I) -> (result: R) where
        R: Reductor<Self::Item>,
        R::State: From<I>,

        requires
            self.obeys_prophetic_iter_laws(),
            self.decrease() is Some,
            forall|start: R::State| #[trigger]
                converted(init, start) ==> fold_req::<R, Self::Item>(start, self.remaining()),
        ensures
            exists|start: R::State| #[trigger]
                converted(init, start) && result == R::into_result_spec(
                    fold_spec::<R, Self::Item>(start, self.remaining()),
                ),
    {
        let start: R::State = init.into();
        assert(converted(init, start));
        R::into_result(fold_from::<Self, R>(self, start))
    }
}

impl<I> Reduce for I where I: Iterator {

}

} // verus!
