//! Multiplying the items of a sequence.
use crate::iter::converted;
use crate::reductor::Reductor;
use core::ops::Mul;
use vstd::prelude::*;
use vstd::std_specs::convert::FromSpecImpl;
use vstd::std_specs::ops::MulSpec;

verus! {

/// `<u8 as From<bool>>::from`, which std documents as giving 0 for `false`
/// and 1 for `true`.
pub assume_specification[ <u8 as std::convert::From<bool>>::from ](b: bool) -> (n: u8)
    ensures
        n == if b {
            1u8
        } else {
            0u8
        },
;

/// `<u16 as From<bool>>::from`, which std documents as giving 0 for `false`
/// and 1 for `true`.
pub assume_specification[ <u16 as std::convert::From<bool>>::from ](b: bool) -> (n: u16)
    ensures
        n == if b {
            1u16
        } else {
            0u16
        },
;

/// `<u32 as From<bool>>::from`, which std documents as giving 0 for `false`
/// and 1 for `true`.
pub assume_specification[ <u32 as std::convert::From<bool>>::from ](b: bool) -> (n: u32)
    ensures
        n == if b {
            1u32
        } else {
            0u32
        },
;

/// `<u64 as From<bool>>::from`, which std documents as giving 0 for `false`
/// and 1 for `true`.
pub assume_specification[ <u64 as std::convert::From<bool>>::from ](b: bool) -> (n: u64)
    ensures
        n == if b {
            1u64
        } else {
            0u64
        },
;

/// `<u128 as From<bool>>::from`, which std documents as giving 0 for `false`
/// and 1 for `true`.
pub assume_specification[ <u128 as std::convert::From<bool>>::from ](b: bool) -> (n: u128)
    ensures
        n == if b {
            1u128
        } else {
            0u128
        },
;

/// `<usize as From<bool>>::from`, which std documents as giving 0 for `false`
/// and 1 for `true`.
pub assume_specification[ <usize as std::convert::From<bool>>::from ](b: bool) -> (n: usize)
    ensures
        n == if b {
            1usize
        } else {
            0usize
        },
;

/// `<i8 as From<bool>>::from`, which std documents as giving 0 for `false`
/// and 1 for `true`.
pub assume_specification[ <i8 as std::convert::From<bool>>::from ](b: bool) -> (n: i8)
    ensures
        n == if b {
            1i8
        } else {
            0i8
        },
;

/// `<i16 as From<bool>>::from`, which std documents as giving 0 for `false`
/// and 1 for `true`.
pub assume_specification[ <i16 as std::convert::From<bool>>::from ](b: bool) -> (n: i16)
    ensures
        n == if b {
            1i16
        } else {
            0i16
        },
;

/// `<i32 as From<bool>>::from`, which std documents as giving 0 for `false`
/// and 1 for `true`.
pub assume_specification[ <i32 as std::convert::From<bool>>::from ](b: bool) -> (n: i32)
    ensures
        n == if b {
            1i32
        } else {
            0i32
        },
;

/// `<i64 as From<bool>>::from`, which std documents as giving 0 for `false`
/// and 1 for `true`.
pub assume_specification[ <i64 as std::convert::From<bool>>::from ](b: bool) -> (n: i64)
    ensures
        n == if b {
            1i64
        } else {
            0i64
        },
;

/// `<i128 as From<bool>>::from`, which std documents as giving 0 for `false`
/// and 1 for `true`.
pub assume_specification[ <i128 as std::convert::From<bool>>::from ](b: bool) -> (n: i128)
    ensures
        n == if b {
            1i128
        } else {
            0i128
        },
;

/// `<isize as From<bool>>::from`, which std documents as giving 0 for `false`
/// and 1 for `true`.
pub assume_specification[ <isize as std::convert::From<bool>>::from ](b: bool) -> (n: isize)
    ensures
        n == if b {
            1isize
        } else {
            0isize
        },
;

/// Multiplies the items of a sequence by one another, as
/// [`Iterator::product`] does.
///
/// The items are either of type `T` or references to `T`. Multiplying is the
/// `*` of `T`. A run may take an item only where that `*` is defined (for the
/// integer types: where the product fits the type) and where the `*` of `T`
/// is known to compute what vstd models it as, `mul_spec`, which holds of the
/// integer types. Code that is not verified gets the `*` of `T` as it is: for
/// an integer product that does not fit, a panic where overflow checks are on
/// and the wrapped product where they are off.
#[derive(Debug, Clone, Copy, PartialEq, Eq, PartialOrd, Ord, Hash)]
pub struct Product<T>(pub T);

/// The state of a [`Product`]: the product so far.
///
/// It is a type of its own because its default is not that of `T`: a product
/// starts from one, not from zero. The one of `T` is what `true` converts
/// into, which is 1 in every number type of std.
#[derive(Debug, Clone, Copy)]
pub struct State<T>(pub T);

impl<T> From<T> for State<T> {
    fn from(v: T) -> (state: Self) {
        State(v)
    }
}

impl<T> FromSpecImpl<T> for State<T> {
    open spec fn obeys_from_spec() -> bool {
        true
    }

    open spec fn from_spec(v: T) -> Self {
        State(v)
    }
}

impl<T: From<bool>> Default for State<T> {
    fn default() -> (state: Self)
        ensures
            converted(true, state.0),
    {
        State(T::from(true))
    }
}

impl<T: From<bool>> Default for Product<T> {
    fn default() -> (product: Self)
        ensures
            converted(true, product.0),
    {
        Product(State::<T>::default().0)
    }
}

impl<T> Reductor<T> for Product<T> where T: Mul<Output = T> {
    type State = State<T>;

    open spec fn new_req(item: T) -> bool {
        true
    }

    open spec fn new_spec(item: T) -> State<T> {
        State(item)
    }

    open spec fn reduce_req(state: State<T>, item: T) -> bool {
        T::obeys_mul_spec() && state.0.mul_req(item)
    }

    open spec fn reduce_spec(state: State<T>, item: T) -> State<T> {
        State(state.0.mul_spec(item))
    }

    open spec fn into_result_spec(state: State<T>) -> Self {
        Product(state.0)
    }

    fn new(item: T) -> State<T> {
        State(item)
    }

    fn reduce(state: State<T>, item: T) -> State<T> {
        State(state.0 * item)
    }

    fn into_result(state: State<T>) -> Self {
        Product(state.0)
    }
}

/// The product of borrowed items: each is copied out of its reference and
/// multiplied as an item of type `T` is.
impl<'a, T> Reductor<&'a T> for Product<T> where T: Mul<Output = T> + Copy {
    type State = State<T>;

    open spec fn new_req(item: &'a T) -> bool {
        true
    }

    open spec fn new_spec(item: &'a T) -> State<T> {
        State(*item)
    }

    open spec fn reduce_req(state: State<T>, item: &'a T) -> bool {
        T::obeys_mul_spec() && state.0.mul_req(*item)
    }

    open spec fn reduce_spec(state: State<T>, item: &'a T) -> State<T> {
        State(state.0.mul_spec(*item))
    }

    open spec fn into_result_spec(state: State<T>) -> Self {
        Product(state.0)
    }

    fn new(item: &'a T) -> State<T> {
        State(*item)
    }

    fn reduce(state: State<T>, item: &'a T) -> State<T> {
        State(state.0 * *item)
    }

    fn into_result(state: State<T>) -> Self {
        Product(state.0)
    }
}

} // verus!
