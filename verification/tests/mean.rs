use reductor::reductors::state::NonEmptyState;
use reductor::{Reduce, Reductor};

/// The running mean of a sequence, a strategy that lives outside the library.
#[derive(Debug, Clone, Copy, PartialEq, PartialOrd)]
struct Mean<F>(F);

impl<T: Into<f32>> Reductor<T> for Mean<f32> {
    type State = NonEmptyState<(f32, usize)>;

    fn new_req(_: T) -> bool {
        true
    }

    fn new_spec(item: T) -> Self::State {
        Self::new(item)
    }

    fn reduce_req(_: Self::State, _: T) -> bool {
        true
    }

    fn reduce_spec(state: Self::State, item: T) -> Self::State {
        Self::reduce(state, item)
    }

    fn into_result_spec(state: Self::State) -> Self {
        <Self as Reductor<T>>::into_result(state)
    }

    fn new(item: T) -> Self::State {
        NonEmptyState((item.into(), 1))
    }

    fn reduce(NonEmptyState((mean, count)): Self::State, item: T) -> Self::State {
        NonEmptyState((
            mean.mul_add(count as f32, item.into()) / (count + 1) as f32,
            count + 1,
        ))
    }

    fn into_result(NonEmptyState((mean, _)): Self::State) -> Self {
        Self(mean)
    }
}

impl<T: Into<f64>> Reductor<T> for Mean<f64> {
    type State = NonEmptyState<(f64, usize)>;

    fn new_req(_: T) -> bool {
        true
    }

    fn new_spec(item: T) -> Self::State {
        Self::new(item)
    }

    fn reduce_req(_: Self::State, _: T) -> bool {
        true
    }

    fn reduce_spec(state: Self::State, item: T) -> Self::State {
        Self::reduce(state, item)
    }

    fn into_result_spec(state: Self::State) -> Self {
        <Self as Reductor<T>>::into_result(state)
    }

    fn new(item: T) -> Self::State {
        NonEmptyState((item.into(), 1))
    }

    fn reduce(NonEmptyState((mean, count)): Self::State, item: T) -> Self::State {
        NonEmptyState((
            mean.mul_add(count as f64, item.into()) / (count + 1) as f64,
            count + 1,
        ))
    }

    fn into_result(NonEmptyState((mean, _)): Self::State) -> Self {
        Self(mean)
    }
}

#[test]
fn test_mean() {
    let Mean::<f32>(mean) = [0.48, 3., 2.64]
        .into_iter()
        .reduce_with::<Option<_>>()
        .unwrap();
    assert!((mean - 2.04).abs() < f32::EPSILON);

    let Mean::<f64>(mean) = [0.48, 3., 2.64]
        .into_iter()
        .reduce_with::<Option<_>>()
        .unwrap();
    assert!((mean - 2.04).abs() < f64::EPSILON);
}

#[test]
fn mean_of_four_values() {
    let Mean::<f32>(mean) = vec![8.5f32, -5.5, 2.0, -4.0]
        .into_iter()
        .reduce_with::<Option<_>>()
        .unwrap();
    assert!((mean - 0.25).abs() < f32::EPSILON);
}

#[test]
fn mean_of_integers() {
    let Mean::<f32>(mean) = [2i16, -1, -23, 42, 13]
        .into_iter()
        .reduce_with::<Option<_>>()
        .unwrap();
    assert!((mean - 6.6).abs() < f32::EPSILON);
}

#[test]
fn mean_of_nothing() {
    let mean: Option<Mean<f64>> = Vec::<f64>::new().into_iter().reduce_with();
    assert_eq!(mean, None);
}

#[test]
fn not_a_number_and_infinity_pass_through() {
    let Mean::<f64>(mean) = [1.0, f64::NAN, 3.0]
        .into_iter()
        .reduce_with::<Option<_>>()
        .unwrap();
    assert!(mean.is_nan());
    let Mean::<f64>(mean) = [1.0, f64::INFINITY, 3.0]
        .into_iter()
        .reduce_with::<Option<_>>()
        .unwrap();
    assert_eq!(mean, f64::INFINITY);
}
