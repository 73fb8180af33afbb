//! The state of the strategies that cannot start from nothing.
use vstd::prelude::*;
use vstd::std_specs::convert::FromSpecImpl;

verus! {

/// A wrapper around `T` that has no default of its own, whether or not `T`
/// has one.
///
/// A strategy with this state cannot be run from a default state, so an empty
/// sequence has to be provided for: by an `Option` around the strategy, or by
/// a state that can itself be empty, `NonEmptyState<Option<T>>`, whose default
/// holds `None`.
#[derive(Debug, Clone, Copy)]
pub struct NonEmptyState<T>(pub T);

impl<T> From<T> for NonEmptyState<T> {
    fn from(v: T) -> (state: Self) {
        NonEmptyState(v)
    }
}

impl<T> FromSpecImpl<T> for NonEmptyState<T> {
    open spec fn obeys_from_spec() -> bool {
        true
    }

    open spec fn from_spec(v: T) -> Self {
        NonEmptyState(v)
    }
}

impl<T> Default for NonEmptyState<Option<T>> {
    fn default() -> (state: Self)
        ensures
            state == NonEmptyState(None::<T>),
    {
        NonEmptyState(None)
    }
}

} // verus!
