//! Tuples of strategies, which reduce sequences of tuples position by position.
//!
//! The state of such a run is the tuple of the states, and its result the
//! tuple of the results, in the order of the strategies. The item at a
//! position is taken in by the strategy at that position and by no other, so
//! each state moves as it would in a run of its own over the items at its
//! position. Tuples of two to five strategies are provided for.
use crate::reductor::Reductor;
use vstd::prelude::*;

verus! {

/// Two strategies in a tuple reduce a sequence of pairs: the first takes the
/// first of each pair, the second the second. Neither sees what the other is
/// given.
///
/// A [`ReductorPair`](crate::reductor::ReductorPair) is the counterpart for a
/// sequence of single items that both strategies are to see.
impl<A1, A2, R1, R2> Reductor<(A1, A2)> for (R1, R2) where
    R1: Reductor<A1>,
    R2: Reductor<A2>,
 {
    type State = (R1::State, R2::State);

    open spec fn new_req(item: (A1, A2)) -> bool {
        &&& R1::new_req(item.0)
        &&& R2::new_req(item.1)
    }

    open spec fn new_spec(item: (A1, A2)) -> (R1::State, R2::State) {
        (R1::new_spec(item.0), R2::new_spec(item.1))
    }

    open spec fn reduce_req(state: (R1::State, R2::State), item: (A1, A2)) -> bool {
        &&& R1::reduce_req(state.0, item.0)
        &&& R2::reduce_req(state.1, item.1)
    }

    open spec fn reduce_spec(
        state: (R1::State, R2::State),
        item: (A1, A2),
    ) -> (R1::State, R2::State) {
        (R1::reduce_spec(state.0, item.0), R2::reduce_spec(state.1, item.1))
    }

    open spec fn into_result_spec(state: (R1::State, R2::State)) -> Self {
        (R1::into_result_spec(state.0), R2::into_result_spec(state.1))
    }

    fn new(item: (A1, A2)) -> (R1::State, R2::State) {
        (R1::new(item.0), R2::new(item.1))
    }

    fn reduce(state: (R1::State, R2::State), item: (A1, A2)) -> (R1::State, R2::State) {
        (R1::reduce(state.0, item.0), R2::reduce(state.1, item.1))
    }

    fn into_result(state: (R1::State, R2::State)) -> Self {
        (R1::into_result(state.0), R2::into_result(state.1))
    }
}

/// Three strategies in a tuple reduce a sequence of triples.
impl<A1, A2, A3, R1, R2, R3> Reductor<(A1, A2, A3)> for (R1, R2, R3) where
    R1: Reductor<A1>,
    R2: Reductor<A2>,
    R3: Reductor<A3>,
 {
    type State = (R1::State, R2::State, R3::State);

    open spec fn new_req(item: (A1, A2, A3)) -> bool {
        &&& R1::new_req(item.0)
        &&& R2::new_req(item.1)
        &&& R3::new_req(item.2)
    }

    open spec fn new_spec(item: (A1, A2, A3)) -> (R1::State, R2::State, R3::State) {
        (R1::new_spec(item.0), R2::new_spec(item.1), R3::new_spec(item.2))
    }

    open spec fn reduce_req(state: (R1::State, R2::State, R3::State), item: (A1, A2, A3)) -> bool {
        &&& R1::reduce_req(state.0, item.0)
        &&& R2::reduce_req(state.1, item.1)
        &&& R3::reduce_req(state.2, item.2)
    }

    open spec fn reduce_spec(
        state: (R1::State, R2::State, R3::State),
        item: (A1, A2, A3),
    ) -> (R1::State, R2::State, R3::State) {
        (
            R1::reduce_spec(state.0, item.0),
            R2::reduce_spec(state.1, item.1),
            R3::reduce_spec(state.2, item.2),
        )
    }

    open spec fn into_result_spec(state: (R1::State, R2::State, R3::State)) -> Self {
        (
            R1::into_result_spec(state.0),
            R2::into_result_spec(state.1),
            R3::into_result_spec(state.2),
        )
    }

    fn new(item: (A1, A2, A3)) -> (R1::State, R2::State, R3::State) {
        (R1::new(item.0), R2::new(item.1), R3::new(item.2))
    }

    fn reduce(
        state: (R1::State, R2::State, R3::State),
        item: (A1, A2, A3),
    ) -> (R1::State, R2::State, R3::State) {
        (R1::reduce(state.0, item.0), R2::reduce(state.1, item.1), R3::reduce(state.2, item.2))
    }

    fn into_result(state: (R1::State, R2::State, R3::State)) -> Self {
        (R1::into_result(state.0), R2::into_result(state.1), R3::into_result(state.2))
    }
}

/// Four strategies in a tuple reduce a sequence of 4-tuples.
impl<A1, A2, A3, A4, R1, R2, R3, R4> Reductor<(A1, A2, A3, A4)> for (R1, R2, R3, R4) where
    R1: Reductor<A1>,
    R2: Reductor<A2>,
    R3: Reductor<A3>,
    R4: Reductor<A4>,
 {
    type State = (R1::State, R2::State, R3::State, R4::State);

    open spec fn new_req(item: (A1, A2, A3, A4)) -> bool {
        &&& R1::new_req(item.0)
        &&& R2::new_req(item.1)
        &&& R3::new_req(item.2)
        &&& R4::new_req(item.3)
    }

    open spec fn new_spec(item: (A1, A2, A3, A4)) -> (R1::State, R2::State, R3::State, R4::State) {
        (R1::new_spec(item.0), R2::new_spec(item.1), R3::new_spec(item.2), R4::new_spec(item.3))
    }

    open spec fn reduce_req(
        state: (R1::State, R2::State, R3::State, R4::State),
        item: (A1, A2, A3, A4),
    ) -> bool {
        &&& R1::reduce_req(state.0, item.0)
        &&& R2::reduce_req(state.1, item.1)
        &&& R3::reduce_req(state.2, item.2)
        &&& R4::reduce_req(state.3, item.3)
    }

    open spec fn reduce_spec(
        state: (R1::State, R2::State, R3::State, R4::State),
        item: (A1, A2, A3, A4),
    ) -> (R1::State, R2::State, R3::State, R4::State) {
        (
            R1::reduce_spec(state.0, item.0),
            R2::reduce_spec(state.1, item.1),
            R3::reduce_spec(state.2, item.2),
            R4::reduce_spec(state.3, item.3),
        )
    }

    open spec fn into_result_spec(state: (R1::State, R2::State, R3::State, R4::State)) -> Self {
        (
            R1::into_result_spec(state.0),
            R2::into_result_spec(state.1),
            R3::into_result_spec(state.2),
            R4::into_result_spec(state.3),
        )
    }

    fn new(item: (A1, A2, A3, A4)) -> (R1::State, R2::State, R3::State, R4::State) {
        (R1::new(item.0), R2::new(item.1), R3::new(item.2), R4::new(item.3))
    }

    fn reduce(
        state: (R1::State, R2::State, R3::State, R4::State),
        item: (A1, A2, A3, A4),
    ) -> (R1::State, R2::State, R3::State, R4::State) {
        (
            R1::reduce(state.0, item.0),
            R2::reduce(state.1, item.1),
            R3::reduce(state.2, item.2),
            R4::reduce(state.3, item.3),
        )
    }

    fn into_result(state: (R1::State, R2::State, R3::State, R4::State)) -> Self {
        (
            R1::into_result(state.0),
            R2::into_result(state.1),
            R3::into_result(state.2),
            R4::into_result(state.3),
        )
    }
}

/// Five strategies in a tuple reduce a sequence of 5-tuples.
impl<A1, A2, A3, A4, A5, R1, R2, R3, R4, R5> Reductor<(A1, A2, A3, A4, A5)> for (
    R1,
    R2,
    R3,
    R4,
    R5,
) where
    R1: Reductor<A1>,
    R2: Reductor<A2>,
    R3: Reductor<A3>,
    R4: Reductor<A4>,
    R5: Reductor<A5>,
 {
    type State = (R1::State, R2::State, R3::State, R4::State, R5::State);

    open spec fn new_req(item: (A1, A2, A3, A4, A5)) -> bool {
        &&& R1::new_req(item.0)
        &&& R2::new_req(item.1)
        &&& R3::new_req(item.2)
        &&& R4::new_req(item.3)
        &&& R5::new_req(item.4)
    }

    open spec fn new_spec(
        item: (A1, A2, A3, A4, A5),
    ) -> (R1::State, R2::State, R3::State, R4::State, R5::State) {
        (
            R1::new_spec(item.0),
            R2::new_spec(item.1),
            R3::new_spec(item.2),
            R4::new_spec(item.3),
            R5::new_spec(item.4),
        )
    }

    open spec fn reduce_req(
        state: (R1::State, R2::State, R3::State, R4::State, R5::State),
        item: (A1, A2, A3, A4, A5),
    ) -> bool {
        &&& R1::reduce_req(state.0, item.0)
        &&& R2::reduce_req(state.1, item.1)
        &&& R3::reduce_req(state.2, item.2)
        &&& R4::reduce_req(state.3, item.3)
        &&& R5::reduce_req(state.4, item.4)
    }

    open spec fn reduce_spec(
        state: (R1::State, R2::State, R3::State, R4::State, R5::State),
        item: (A1, A2, A3, A4, A5),
    ) -> (R1::State, R2::State, R3::State, R4::State, R5::State) {
        (
            R1::reduce_spec(state.0, item.0),
            R2::reduce_spec(state.1, item.1),
            R3::reduce_spec(state.2, item.2),
            R4::reduce_spec(state.3, item.3),
            R5::reduce_spec(state.4, item.4),
        )
    }

    open spec fn into_result_spec(
        state: (R1::State, R2::State, R3::State, R4::State, R5::State),
    ) -> Self {
        (
            R1::into_result_spec(state.0),
            R2::into_result_spec(state.1),
            R3::into_result_spec(state.2),
            R4::into_result_spec(state.3),
            R5::into_result_spec(state.4),
        )
    }

    fn new(item: (A1, A2, A3, A4, A5)) -> (R1::State, R2::State, R3::State, R4::State, R5::State) {
        (R1::new(item.0), R2::new(item.1), R3::new(item.2), R4::new(item.3), R5::new(item.4))
    }

    fn reduce(
        state: (R1::State, R2::State, R3::State, R4::State, R5::State),
        item: (A1, A2, A3, A4, A5),
    ) -> (R1::State, R2::State, R3::State, R4::State, R5::State) {
        (
            R1::reduce(state.0, item.0),
            R2::reduce(state.1, item.1),
            R3::reduce(state.2, item.2),
            R4::reduce(state.3, item.3),
            R5::reduce(state.4, item.4),
        )
    }

    fn into_result(state: (R1::State, R2::State, R3::State, R4::State, R5::State)) -> Self {
        (
            R1::into_result(state.0),
            R2::into_result(state.1),
            R3::into_result(state.2),
            R4::into_result(state.3),
            R5::into_result(state.4),
        )
    }
}

} // verus!
