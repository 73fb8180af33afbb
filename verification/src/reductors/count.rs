//! Counting the items of a sequence.
use crate::reductor::Reductor;
use vstd::prelude::*;

verus! {

/// Counts the items of a sequence, as [`Iterator::count`] does.
///
/// The count stops at `usize::MAX`: a further item leaves it there, so that
/// counting never overflows.
#[derive(Debug, Clone, Copy, PartialEq, Eq, PartialOrd, Ord, Hash)]
pub struct Count(pub usize);

impl Default for Count {
    fn default() -> (count: Self)
        ensures
            count == Count(0),
    {
        Count(0)
    }
}

impl<A> Reductor<A> for Count {
    type State = usize;

    open spec fn new_req(item: A) -> bool {
        true
    }

    open spec fn new_spec(item: A) -> usize {
        1
    }

    open spec fn reduce_req(state: usize, item: A) -> bool {
        true
    }

    open spec fn reduce_spec(state: usize, item: A) -> usize {
        if state < usize::MAX {
            (state + 1) as usize
        } else {
            usize::MAX
        }
    }

    open spec fn into_result_spec(state: usize) -> Self {
        Count(state)
    }

    fn new(_item: A) -> usize {
        1
    }

    fn reduce(state: usize, _item: A) -> usize {
        state.saturating_add(1)
    }

    fn into_result(state: usize) -> Self {
        Count(state)
    }
}

/// A count of at least one.
///
/// It stands where the number of items of a sequence that is known not to be
/// empty is wanted: such a number is never zero, and a value of this type
/// cannot be. It is what `std::num::NonZeroUsize` is, with a view, its value
/// as a `usize`, that contracts can speak of.
#[derive(Debug, Clone, Copy, PartialEq, Eq, PartialOrd, Ord, Hash)]
pub struct NonZeroCount {
    value: usize,
}

impl View for NonZeroCount {
    type V = usize;

    closed spec fn view(&self) -> usize {
        self.value
    }
}

impl NonZeroCount {
    #[verifier::type_invariant]
    spec fn is_not_zero(self) -> bool {
        self.value != 0
    }

    /// The count whose value is `value`, which is meant not to be zero.
    pub closed spec fn of(value: usize) -> Self {
        NonZeroCount { value }
    }

    /// The count of a value has that value.
    pub proof fn lemma_view_of(value: usize)
        ensures
            Self::of(value)@ == value,
    {
    }

    /// Every count is the count of its value, so two counts with one value
    /// are equal.
    pub proof fn lemma_of_view(self)
        ensures
            Self::of(self@) == self,
    {
    }

    /// The count with the given value, or `None` for zero.
    pub fn new(value: usize) -> (count: Option<Self>)
        ensures
            value == 0 ==> count is None,
            value != 0 ==> count == Some(Self::of(value)),
    {
        if value == 0 {
            None
        } else {
            Some(NonZeroCount { value })
        }
    }

    /// The value of the count.
    pub fn get(self) -> (value: usize)
        ensures
            value == self@,
            value != 0,
    {
        proof {
            use_type_invariant(&self);
        }
        self.value
    }
}

/// Counts the items of a sequence that is not empty.
///
/// Unlike [`Count`], it has no state for "nothing seen": its state starts at
/// one with the first item, so it is run inside an `Option`, and an empty
/// sequence gives `None`. A run may not take an item when its count is
/// `usize::MAX`. Code that is not verified and takes that step all the same
/// gets a panic, not a count that has wrapped around to zero.
#[derive(Debug, Clone, Copy, PartialEq, Eq, PartialOrd, Ord, Hash)]
pub struct CountNonZero(pub NonZeroCount);

impl<A> Reductor<A> for CountNonZero {
    type State = NonZeroCount;

    open spec fn new_req(item: A) -> bool {
        true
    }

    open spec fn new_spec(item: A) -> NonZeroCount {
        NonZeroCount::of(1)
    }

    open spec fn reduce_req(state: NonZeroCount, item: A) -> bool {
        state@ < usize::MAX
    }

    open spec fn reduce_spec(state: NonZeroCount, item: A) -> NonZeroCount {
        NonZeroCount::of((state@ + 1) as usize)
    }

    open spec fn into_result_spec(state: NonZeroCount) -> Self {
        CountNonZero(state)
    }

    fn new(_item: A) -> NonZeroCount {
        NonZeroCount::new(1).unwrap()
    }

    fn reduce(state: NonZeroCount, _item: A) -> NonZeroCount {
        NonZeroCount::new(state.get().checked_add(1).unwrap()).unwrap()
    }

    fn into_result(state: NonZeroCount) -> Self {
        CountNonZero(state)
    }
}

} // verus!
