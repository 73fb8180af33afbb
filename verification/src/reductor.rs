//! The contract of a reduction strategy, and the two adapters that need no
//! tuple of items: the optional adapter and the replicated pair.
use crate::iter::is_default;
use vstd::prelude::*;

verus! {

/// A strategy for reducing a sequence of items of type `A` into one result,
/// which is a value of the implementing type.
///
/// A run owns one value of [`State`](Reductor::State). It is made from the
/// first item by [`new`](Reductor::new), replaced once for each later item, in
/// the order of the sequence, by [`reduce`](Reductor::reduce), and turned into
/// the result by [`into_result`](Reductor::into_result) when the sequence has
/// ended. A state is never looked at before an item has been seen, unless the
/// strategy has a state for that: a default state, from which
/// [`reduce_with`](crate::iter::Reduce::reduce_with) starts.
///
/// The three operations are functions of their arguments: `new_spec`,
/// `reduce_spec` and `into_result_spec` say what they return. A strategy that
/// cannot take every item (one whose arithmetic would overflow, say) leaves
/// those items out with `new_req` and `reduce_req`; `into_result` takes every
/// state. There is no other way to fail: a run that may take its items ends
/// with a result.
///
/// # Example
///
/// A strategy that keeps the last item of a sequence, and so depends on the
/// order in which the items are taken:
///
/// ```ignore
/// pub struct Last(pub u32);
///
/// impl Reductor<u32> for Last {
///     type State = u32;
///
///     open spec fn new_req(item: u32) -> bool {
///         true
///     }
///
///     open spec fn new_spec(item: u32) -> u32 {
///         item
///     }
///
///     open spec fn reduce_req(state: u32, item: u32) -> bool {
///         true
///     }
///
///     open spec fn reduce_spec(state: u32, item: u32) -> u32 {
///         item
///     }
///
///     open spec fn into_result_spec(state: u32) -> Last {
///         Last(state)
///     }
///
///     fn new(item: u32) -> u32 {
///         item
///     }
///
///     fn reduce(_state: u32, item: u32) -> u32 {
///         item
///     }
///
///     fn into_result(state: u32) -> Last {
///         Last(state)
///     }
/// }
/// ```
///
/// A strategy that is written outside of verified code has the five model
/// functions to write too, as ordinary functions. Nothing calls them, and
/// nothing is proved of such a strategy; it is in order that they repeat the
/// operations.
pub trait Reductor<A>: Sized {
    /// The accumulator of a run. It need not have the shape of the result.
    type State;

    /// Whether a run may start with `item`.
    spec fn new_req(item: A) -> bool;

    /// The state of a run that has seen `item` and nothing else.
    spec fn new_spec(item: A) -> Self::State;

    /// Whether a run in `state` may take `item` next.
    spec fn reduce_req(state: Self::State, item: A) -> bool;

    /// The state that follows `state` once `item` has been taken in.
    spec fn reduce_spec(state: Self::State, item: A) -> Self::State;

    /// The result of a run that ended in `state`.
    spec fn into_result_spec(state: Self::State) -> Self;

    /// Makes the state of a run from its first item.
    fn new(item: A) -> (state: Self::State)
        requires
            Self::new_req(item),
        ensures
            state == Self::new_spec(item),
    ;

    /// Takes the next item into the state of a run.
    fn reduce(state: Self::State, item: A) -> (next: Self::State)
        requires
            Self::reduce_req(state, item),
        ensures
            next == Self::reduce_spec(state, item),
    ;

    /// Turns the state of a finished run into its result.
    fn into_result(state: Self::State) -> (result: Self)
        ensures
            result == Self::into_result_spec(state),
    ;
}

/// Whether a run in `state` may take all of `items`, one after the other.
pub open spec fn fold_req<R: Reductor<A>, A>(state: R::State, items: Seq<A>) -> bool
    decreases items.len(),
{
    items.len() == 0 || (R::reduce_req(state, items[0]) && fold_req::<R, A>(
        R::reduce_spec(state, items[0]),
        items.drop_first(),
    ))
}

/// The state of a run that was in `state` and has then taken `items`, first to
/// last.
pub open spec fn fold_spec<R: Reductor<A>, A>(state: R::State, items: Seq<A>) -> R::State
    decreases items.len(),
{
    if items.len() == 0 {
        state
    } else {
        fold_spec::<R, A>(R::reduce_spec(state, items[0]), items.drop_first())
    }
}

/// Whether a run may be made of `items` alone: there is a first item to start
/// from, and the run may take each of the others.
pub open spec fn run_req<R: Reductor<A>, A>(items: Seq<A>) -> bool {
    &&& items.len() > 0
    &&& R::new_req(items[0])
    &&& fold_req::<R, A>(R::new_spec(items[0]), items.drop_first())
}

/// The state of a run made of `items` alone: started from the first with
/// `new`, it took each of the others with `reduce`.
pub open spec fn run_spec<R: Reductor<A>, A>(items: Seq<A>) -> R::State
    recommends
        items.len() > 0,
{
    fold_spec::<R, A>(R::new_spec(items[0]), items.drop_first())
}

/// An `Option` around a strategy reduces any sequence, the empty one too.
///
/// Its state is `None` until the first item has been seen. That item starts
/// the inner run, later ones go on with it, and the result is `None` exactly
/// when there was no item. This gives a default state, `None`, to strategies
/// that have none of their own.
impl<R, A> Reductor<A> for Option<R> where R: Reductor<A> {
    type State = Option<R::State>;

    open spec fn new_req(item: A) -> bool {
        R::new_req(item)
    }

    open spec fn new_spec(item: A) -> Option<R::State> {
        Some(R::new_spec(item))
    }

    open spec fn reduce_req(state: Option<R::State>, item: A) -> bool {
        match state {
            None => R::new_req(item),
            Some(inner) => R::reduce_req(inner, item),
        }
    }

    open spec fn reduce_spec(state: Option<R::State>, item: A) -> Option<R::State> {
        Some(
            match state {
                None => R::new_spec(item),
                Some(inner) => R::reduce_spec(inner, item),
            },
        )
    }

    open spec fn into_result_spec(state: Option<R::State>) -> Self {
        match state {
            None => None,
            Some(inner) => Some(R::into_result_spec(inner)),
        }
    }

    fn new(item: A) -> Option<R::State> {
        Some(R::new(item))
    }

    fn reduce(state: Option<R::State>, item: A) -> Option<R::State> {
        Some(
            match state {
                None => R::new(item),
                Some(inner) => R::reduce(inner, item),
            },
        )
    }

    fn into_result(state: Option<R::State>) -> Self {
        match state {
            None => None,
            Some(inner) => Some(R::into_result(inner)),
        }
    }
}

/// Two strategies that run side by side over every item of one sequence.
///
/// Each item is cloned: the copy goes to the first strategy and the item
/// itself to the second. The result keeps the two results apart from a plain
/// tuple, which reduces a sequence of tuples instead, so that both kinds can
/// be nested in one another.
#[derive(Debug, Clone, Copy, PartialEq, Eq, PartialOrd, Ord, Hash)]
pub struct ReductorPair<R1, R2>(pub R1, pub R2);

/// Whether every clone of `item` is equal to it. A `ReductorPair` takes only
/// such items, so that both its strategies see the same sequence.
pub open spec fn clones_faithfully<A: Clone>(item: A) -> bool {
    forall|copy: A| cloned(item, copy) ==> copy == item
}

impl<R1, R2, A> Reductor<A> for ReductorPair<R1, R2> where
    A: Clone,
    R1: Reductor<A>,
    R2: Reductor<A>,
 {
    type State = (R1::State, R2::State);

    open spec fn new_req(item: A) -> bool {
        &&& clones_faithfully(item)
        &&& R1::new_req(item)
        &&& R2::new_req(item)
    }

    open spec fn new_spec(item: A) -> (R1::State, R2::State) {
        (R1::new_spec(item), R2::new_spec(item))
    }

    open spec fn reduce_req(state: (R1::State, R2::State), item: A) -> bool {
        &&& clones_faithfully(item)
        &&& R1::reduce_req(state.0, item)
        &&& R2::reduce_req(state.1, item)
    }

    open spec fn reduce_spec(state: (R1::State, R2::State), item: A) -> (R1::State, R2::State) {
        (R1::reduce_spec(state.0, item), R2::reduce_spec(state.1, item))
    }

    open spec fn into_result_spec(state: (R1::State, R2::State)) -> Self {
        ReductorPair(R1::into_result_spec(state.0), R2::into_result_spec(state.1))
    }

    fn new(item: A) -> (R1::State, R2::State) {
        let copy = item.clone();
        assert(cloned(item, copy));
        (R1::new(copy), R2::new(item))
    }

    fn reduce(state: (R1::State, R2::State), item: A) -> (R1::State, R2::State) {
        let copy = item.clone();
        assert(cloned(item, copy));
        (R1::reduce(state.0, copy), R2::reduce(state.1, item))
    }

    fn into_result(state: (R1::State, R2::State)) -> Self {
        ReductorPair(R1::into_result(state.0), R2::into_result(state.1))
    }
}

impl<R1: Default, R2: Default> Default for ReductorPair<R1, R2> {
    fn default() -> (pair: Self)
        ensures
            is_default(pair.0),
            is_default(pair.1),
    {
        ReductorPair(R1::default(), R2::default())
    }
}

} // verus!
