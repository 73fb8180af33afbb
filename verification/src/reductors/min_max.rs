//! Keeping the least and the greatest item of a sequence.
use crate::reductor::{fold_spec, run_spec, Reductor, ReductorPair};
use crate::reductors::state::NonEmptyState;
use core::cmp::Ordering;
use vstd::laws_cmp::{
    obeys_cmp, obeys_cmp_ord, obeys_cmp_partial_ord, obeys_partial_cmp_spec_properties,
};
use vstd::laws_eq::obeys_concrete_eq;
use vstd::prelude::*;
use vstd::std_specs::cmp::{OrdSpec, PartialOrdSpec};

verus! {

/// The lesser of `a` and `b` in the order of `T`, and `a` where they are
/// equal in it: what `a.min(b)` is.
pub open spec fn lesser<T: Ord>(a: T, b: T) -> T {
    match b.cmp_spec(&a) {
        Ordering::Less => b,
        _ => a,
    }
}

/// The greater of `a` and `b` in the order of `T`, and `b` where they are
/// equal in it: what `a.max(b)` is.
pub open spec fn greater<T: Ord>(a: T, b: T) -> T {
    match b.cmp_spec(&a) {
        Ordering::Less => a,
        _ => b,
    }
}

/// Whether `a` comes before `b` in the order of `T`.
pub open spec fn before<T: Ord>(a: T, b: T) -> bool {
    a.cmp_spec(&b) is Less
}

/// Whether the order of `T` is total, takes only equal values for equal, and
/// is computed as vstd models it. This holds of the integer types.
pub open spec fn is_totally_ordered<T: Ord>() -> bool {
    obeys_cmp::<T>() && obeys_concrete_eq::<T>()
}

/// In a total order, "before" and "not before" go on along a chain.
proof fn lemma_before_chain<T: Ord>(x: T, y: T, z: T)
    requires
        is_totally_ordered::<T>(),
    ensures
        !before(x, x),
        before(x, y) && before(y, z) ==> before(x, z),
        !before(y, x) && !before(z, y) ==> !before(z, x),
{
    reveal(obeys_cmp_ord);
    reveal(obeys_cmp_partial_ord);
    reveal(obeys_partial_cmp_spec_properties);
    reveal(obeys_concrete_eq);
    assert(x.partial_cmp_spec(&x) == Some(x.cmp_spec(&x)));
    assert(x.partial_cmp_spec(&y) == Some(x.cmp_spec(&y)));
    assert(y.partial_cmp_spec(&z) == Some(y.cmp_spec(&z)));
    assert(x.partial_cmp_spec(&z) == Some(x.cmp_spec(&z)));
    assert(y.partial_cmp_spec(&x) == Some(y.cmp_spec(&x)));
    assert(z.partial_cmp_spec(&y) == Some(z.cmp_spec(&y)));
    assert(z.partial_cmp_spec(&x) == Some(z.cmp_spec(&x)));
}

/// Keeps the least item of a sequence, as [`Iterator::min`] does.
///
/// `Min<T>` has no default state: an empty sequence has no least item. Run it
/// inside an `Option`, or use `Min<Option<T>>`, whose result holds `None` for
/// the empty sequence. Of several items that are equal and least, the first
/// is kept. A run takes items only of a `T` whose comparisons are known to
/// compute what vstd models them as, `cmp_spec`, which holds of the integer
/// types.
#[derive(Debug, Clone, Copy, PartialEq, Eq, PartialOrd, Ord, Hash)]
pub struct Min<T>(pub T);

impl<T> Reductor<T> for Min<T> where T: Ord {
    type State = NonEmptyState<T>;

    open spec fn new_req(item: T) -> bool {
        true
    }

    open spec fn new_spec(item: T) -> NonEmptyState<T> {
        NonEmptyState(item)
    }

    open spec fn reduce_req(state: NonEmptyState<T>, item: T) -> bool {
        T::obeys_cmp_spec()
    }

    open spec fn reduce_spec(state: NonEmptyState<T>, item: T) -> NonEmptyState<T> {
        NonEmptyState(lesser(state.0, item))
    }

    open spec fn into_result_spec(state: NonEmptyState<T>) -> Self {
        Min(state.0)
    }

    fn new(item: T) -> NonEmptyState<T> {
        NonEmptyState(item)
    }

    fn reduce(state: NonEmptyState<T>, item: T) -> NonEmptyState<T> {
        NonEmptyState(state.0.min(item))
    }

    fn into_result(state: NonEmptyState<T>) -> Self {
        Min(state.0)
    }
}

impl<T> Reductor<T> for Min<Option<T>> where T: Ord {
    type State = NonEmptyState<Option<T>>;

    open spec fn new_req(item: T) -> bool {
        true
    }

    open spec fn new_spec(item: T) -> NonEmptyState<Option<T>> {
        NonEmptyState(Some(item))
    }

    open spec fn reduce_req(state: NonEmptyState<Option<T>>, item: T) -> bool {
        state.0 is Some ==> T::obeys_cmp_spec()
    }

    open spec fn reduce_spec(state: NonEmptyState<Option<T>>, item: T) -> NonEmptyState<
        Option<T>,
    > {
        match state.0 {
            Some(least) => NonEmptyState(Some(lesser(least, item))),
            None => NonEmptyState(Some(item)),
        }
    }

    open spec fn into_result_spec(state: NonEmptyState<Option<T>>) -> Self {
        Min(state.0)
    }

    fn new(item: T) -> NonEmptyState<Option<T>> {
        NonEmptyState(Some(item))
    }

    fn reduce(state: NonEmptyState<Option<T>>, item: T) -> NonEmptyState<Option<T>> {
        match state.0 {
            Some(least) => NonEmptyState(Some(least.min(item))),
            None => Self::new(item),
        }
    }

    fn into_result(state: NonEmptyState<Option<T>>) -> Self {
        Min(state.0)
    }
}

/// Keeps the greatest item of a sequence, as [`Iterator::max`] does.
///
/// `Max<T>` has no default state: an empty sequence has no greatest item. Run
/// it inside an `Option`, or use `Max<Option<T>>`, whose result holds `None`
/// for the empty sequence. Of several items that are equal and greatest, the
/// last is kept. A run takes items only of a `T` whose comparisons are known
/// to compute what vstd models them as, `cmp_spec`, which holds of the
/// integer types.
#[derive(Debug, Clone, Copy, PartialEq, Eq, PartialOrd, Ord, Hash)]
pub struct Max<T>(pub T);

impl<T> Reductor<T> for Max<T> where T: Ord {
    type State = NonEmptyState<T>;

    open spec fn new_req(item: T) -> bool {
        true
    }

    open spec fn new_spec(item: T) -> NonEmptyState<T> {
        NonEmptyState(item)
    }

    open spec fn reduce_req(state: NonEmptyState<T>, item: T) -> bool {
        T::obeys_cmp_spec()
    }

    open spec fn reduce_spec(state: NonEmptyState<T>, item: T) -> NonEmptyState<T> {
        NonEmptyState(greater(state.0, item))
    }

    open spec fn into_result_spec(state: NonEmptyState<T>) -> Self {
        Max(state.0)
    }

    fn new(item: T) -> NonEmptyState<T> {
        NonEmptyState(item)
    }

    fn reduce(state: NonEmptyState<T>, item: T) -> NonEmptyState<T> {
        NonEmptyState(state.0.max(item))
    }

    fn into_result(state: NonEmptyState<T>) -> Self {
        Max(state.0)
    }
}

impl<T> Reductor<T> for Max<Option<T>> where T: Ord {
    type State = NonEmptyState<Option<T>>;

    open spec fn new_req(item: T) -> bool {
        true
    }

    open spec fn new_spec(item: T) -> NonEmptyState<Option<T>> {
        NonEmptyState(Some(item))
    }

    open spec fn reduce_req(state: NonEmptyState<Option<T>>, item: T) -> bool {
        state.0 is Some ==> T::obeys_cmp_spec()
    }

    open spec fn reduce_spec(state: NonEmptyState<Option<T>>, item: T) -> NonEmptyState<
        Option<T>,
    > {
        match state.0 {
            Some(greatest) => NonEmptyState(Some(greater(greatest, item))),
            None => NonEmptyState(Some(item)),
        }
    }

    open spec fn into_result_spec(state: NonEmptyState<Option<T>>) -> Self {
        Max(state.0)
    }

    fn new(item: T) -> NonEmptyState<Option<T>> {
        NonEmptyState(Some(item))
    }

    fn reduce(state: NonEmptyState<Option<T>>, item: T) -> NonEmptyState<Option<T>> {
        match state.0 {
            Some(greatest) => NonEmptyState(Some(greatest.max(item))),
            None => Self::new(item),
        }
    }

    fn into_result(state: NonEmptyState<Option<T>>) -> Self {
        Max(state.0)
    }
}

/// What [`Min`] keeps is the least of what it has seen: the state it started
/// from or one of the items, and nothing that it has seen comes before it.
pub proof fn lemma_min_is_least<T: Ord>(state: NonEmptyState<T>, items: Seq<T>)
    requires
        is_totally_ordered::<T>(),
    ensures
        ({
            let least = fold_spec::<Min<T>, T>(state, items).0;
            &&& least == state.0 || items.contains(least)
            &&& !before(state.0, least)
            &&& forall|i: int| 0 <= i < items.len() ==> !before(#[trigger] items[i], least)
        }),
    decreases items.len(),
{
    if items.len() > 0 {
        let next = NonEmptyState(lesser(state.0, items[0]));
        let rest = items.drop_first();
        let least = fold_spec::<Min<T>, T>(next, rest).0;
        lemma_min_is_least(next, rest);
        lemma_before_chain(least, state.0, items[0]);
        lemma_before_chain(least, items[0], state.0);
        lemma_before_chain(items[0], state.0, least);
        if rest.contains(least) {
            let i = choose|i: int| 0 <= i < rest.len() && rest[i] == least;
            assert(items[i + 1] == least);
        }
        assert forall|i: int| 0 <= i < items.len() implies !before(#[trigger] items[i], least) by {
            if i > 0 {
                assert(items[i] == rest[i - 1]);
            }
        }
    } else {
        lemma_before_chain(state.0, state.0, state.0);
    }
}

/// What [`Max`] keeps is the greatest of what it has seen: the state it
/// started from or one of the items, and it comes before nothing that it has
/// seen.
pub proof fn lemma_max_is_greatest<T: Ord>(state: NonEmptyState<T>, items: Seq<T>)
    requires
        is_totally_ordered::<T>(),
    ensures
        ({
            let greatest = fold_spec::<Max<T>, T>(state, items).0;
            &&& greatest == state.0 || items.contains(greatest)
            &&& !before(greatest, state.0)
            &&& forall|i: int| 0 <= i < items.len() ==> !before(greatest, #[trigger] items[i])
        }),
    decreases items.len(),
{
    if items.len() > 0 {
        let next = NonEmptyState(greater(state.0, items[0]));
        let rest = items.drop_first();
        let greatest = fold_spec::<Max<T>, T>(next, rest).0;
        lemma_max_is_greatest(next, rest);
        lemma_before_chain(state.0, items[0], greatest);
        lemma_before_chain(items[0], state.0, greatest);
        lemma_before_chain(greatest, items[0], state.0);
        if rest.contains(greatest) {
            let i = choose|i: int| 0 <= i < rest.len() && rest[i] == greatest;
            assert(items[i + 1] == greatest);
        }
        assert forall|i: int| 0 <= i < items.len() implies !before(
            greatest,
            #[trigger] items[i],
        ) by {
            if i > 0 {
                assert(items[i] == rest[i - 1]);
            }
        }
    } else {
        lemma_before_chain(state.0, state.0, state.0);
    }
}

/// The least item of a sequence that is not empty: what [`Min`] gives for the
/// run made of the sequence is one of its items, and none of them comes
/// before it.
pub proof fn lemma_min_of_run<T: Ord>(items: Seq<T>)
    requires
        is_totally_ordered::<T>(),
        items.len() > 0,
    ensures
        ({
            let least = run_spec::<Min<T>, T>(items).0;
            &&& items.contains(least)
            &&& forall|i: int| 0 <= i < items.len() ==> !before(#[trigger] items[i], least)
        }),
{
    let rest = items.drop_first();
    let least = run_spec::<Min<T>, T>(items).0;
    lemma_min_is_least(NonEmptyState(items[0]), rest);
    if rest.contains(least) {
        let i = choose|i: int| 0 <= i < rest.len() && rest[i] == least;
        assert(items[i + 1] == least);
    } else {
        assert(items[0] == least);
    }
    assert forall|i: int| 0 <= i < items.len() implies !before(#[trigger] items[i], least) by {
        if i > 0 {
            assert(items[i] == rest[i - 1]);
        }
    }
}

/// The greatest item of a sequence that is not empty: what [`Max`] gives for
/// the run made of the sequence is one of its items, and it comes before none
/// of them.
pub proof fn lemma_max_of_run<T: Ord>(items: Seq<T>)
    requires
        is_totally_ordered::<T>(),
        items.len() > 0,
    ensures
        ({
            let greatest = run_spec::<Max<T>, T>(items).0;
            &&& items.contains(greatest)
            &&& forall|i: int| 0 <= i < items.len() ==> !before(greatest, #[trigger] items[i])
        }),
{
    let rest = items.drop_first();
    let greatest = run_spec::<Max<T>, T>(items).0;
    lemma_max_is_greatest(NonEmptyState(items[0]), rest);
    if rest.contains(greatest) {
        let i = choose|i: int| 0 <= i < rest.len() && rest[i] == greatest;
        assert(items[i + 1] == greatest);
    } else {
        assert(items[0] == greatest);
    }
    assert forall|i: int| 0 <= i < items.len() implies !before(greatest, #[trigger] items[i]) by {
        if i > 0 {
            assert(items[i] == rest[i - 1]);
        }
    }
}

/// Keeps both the least and the greatest item of a sequence, in one pass.
///
/// It is a [`ReductorPair`] of [`Min`] and [`Max`] with the two results laid
/// out as fields, so it takes only items whose clones are equal to them.
#[derive(Debug, Clone, Copy, PartialEq, Eq, Hash)]
pub struct MinMax<T> {
    /// The least item of the sequence.
    pub min: T,
    /// The greatest item of the sequence.
    pub max: T,
}

impl<A> Reductor<A> for MinMax<A> where A: Clone + Ord {
    type State = (NonEmptyState<A>, NonEmptyState<A>);

    open spec fn new_req(item: A) -> bool {
        ReductorPair::<Min<A>, Max<A>>::new_req(item)
    }

    open spec fn new_spec(item: A) -> (NonEmptyState<A>, NonEmptyState<A>) {
        ReductorPair::<Min<A>, Max<A>>::new_spec(item)
    }

    open spec fn reduce_req(state: (NonEmptyState<A>, NonEmptyState<A>), item: A) -> bool {
        ReductorPair::<Min<A>, Max<A>>::reduce_req(state, item)
    }

    open spec fn reduce_spec(state: (NonEmptyState<A>, NonEmptyState<A>), item: A) -> (
        NonEmptyState<A>,
        NonEmptyState<A>,
    ) {
        ReductorPair::<Min<A>, Max<A>>::reduce_spec(state, item)
    }

    open spec fn into_result_spec(state: (NonEmptyState<A>, NonEmptyState<A>)) -> Self {
        MinMax { min: (state.0).0, max: (state.1).0 }
    }

    fn new(item: A) -> (NonEmptyState<A>, NonEmptyState<A>) {
        ReductorPair::<Min<A>, Max<A>>::new(item)
    }

    fn reduce(state: (NonEmptyState<A>, NonEmptyState<A>), item: A) -> (
        NonEmptyState<A>,
        NonEmptyState<A>,
    ) {
        ReductorPair::<Min<A>, Max<A>>::reduce(state, item)
    }

    fn into_result(state: (NonEmptyState<A>, NonEmptyState<A>)) -> Self {
        let ReductorPair(Min(min), Max(max)) = ReductorPair::<Min<A>, Max<A>>::into_result(state);
        MinMax { min, max }
    }
}

} // verus!
