//! Adding up the items of a sequence.
use crate::iter::is_default;
use crate::reductor::Reductor;
use core::ops::Add;
use vstd::prelude::*;
use vstd::std_specs::ops::AddSpec;

verus! {

/// Adds the items of a sequence to each other, as [`Iterator::sum`] does.
///
/// The state is the sum so far, a `T`, and a run from the default state starts
/// from `T::default()`, which is zero for the number types. The items are
/// either of type `T` or references to `T`.
///
/// Adding is the `+` of `T`. A run may take an item only where that `+` is
/// defined (for the integer types: where the sum fits the type) and where the
/// `+` of `T` is known to compute what vstd models it as, `add_spec`, which
/// holds of the integer types. Code that is not verified gets the `+` of `T`
/// as it is: for an integer sum that does not fit, a panic where overflow
/// checks are on and the wrapped sum where they are off.
#[derive(Debug, Clone, Copy, PartialEq, Eq, PartialOrd, Ord, Hash)]
pub struct Sum<T>(pub T);

impl<T: Default> Default for Sum<T> {
    fn default() -> (sum: Self)
        ensures
            is_default(sum.0),
    {
        Sum(T::default())
    }
}

impl<T> Reductor<T> for Sum<T> where T: Add<Output = T> {
    type State = T;

    open spec fn new_req(item: T) -> bool {
        true
    }

    open spec fn new_spec(item: T) -> T {
        item
    }

    open spec fn reduce_req(state: T, item: T) -> bool {
        T::obeys_add_spec() && state.add_req(item)
    }

    open spec fn reduce_spec(state: T, item: T) -> T {
        state.add_spec(item)
    }

    open spec fn into_result_spec(state: T) -> Self {
        Sum(state)
    }

    fn new(item: T) -> T {
        item
    }

    fn reduce(state: T, item: T) -> T {
        state + item
    }

    fn into_result(state: T) -> Self {
        Sum(state)
    }
}

/// The sum of borrowed items: each is copied out of its reference and added
/// as an item of type `T` is.
impl<'a, T> Reductor<&'a T> for Sum<T> where T: Add<Output = T> + Copy {
    type State = T;

    open spec fn new_req(item: &'a T) -> bool {
        true
    }

    open spec fn new_spec(item: &'a T) -> T {
        *item
    }

    open spec fn reduce_req(state: T, item: &'a T) -> bool {
        T::obeys_add_spec() && state.add_req(*item)
    }

    open spec fn reduce_spec(state: T, item: &'a T) -> T {
        state.add_spec(*item)
    }

    open spec fn into_result_spec(state: T) -> Self {
        Sum(state)
    }

    fn new(item: &'a T) -> T {
        *item
    }

    fn reduce(state: T, item: &'a T) -> T {
        state + *item
    }

    fn into_result(state: T) -> Self {
        Sum(state)
    }
}

} // verus!
