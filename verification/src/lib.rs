//! Composable reductions: fold a sequence of items into one or more results,
//! in one pass, with statically typed strategies that nest and combine.
//!
//! The entry points are [`Reduce::reduce_with`] and [`Reduce::fold_with`],
//! which every [`Iterator`] has. They are like [`Iterator::reduce`] and
//! [`Iterator::fold`], but take the logic of the reduction from a
//! [`Reductor`], a type, instead of a closure.
//!
//! ```rust
//! use reductor::{Count, Max, Min, Product, Reduce, Sum};
//!
//! let iter = 0..10;
//!
//! let Sum::<u32>(sum) = iter.clone().reduce_with();
//! let Product::<u32>(product) = iter.clone().fold_with(2);
//! let Count(count) = iter.clone().reduce_with();
//! assert_eq!(sum, iter.clone().sum());
//! assert_eq!(product, iter.clone().product::<u32>() * 2);
//! assert_eq!(count, iter.clone().count());
//!
//! let min: Option<Min<u32>> = iter.clone().reduce_with();
//! let Max::<Option<u32>>(max) = iter.clone().reduce_with();
//! assert_eq!(min.unwrap(), Min(iter.start));
//! assert_eq!(max.unwrap(), iter.last().unwrap());
//! ```
//!
//! Unlike [`Sum`] and [`Product`], [`Min`] and [`Max`] do not reduce an empty
//! iterator into a default value: there is none, as [`Iterator::max`] returns
//! an `Option` where [`Iterator::sum`] does not.
//!
//! Two strategies in a tuple reduce an iterator that yields pairs:
//!
//! ```rust
//! use reductor::{Product, Reduce, Sum};
//!
//! let iter = 0..10;
//!
//! let (Sum::<usize>(sum), Product::<usize>(product)) =
//!     iter.clone().map(|x| (x, x * 2)).reduce_with();
//!
//! assert_eq!(sum, iter.clone().sum());
//! assert_eq!(product, iter.map(|x| x * 2).product());
//! ```
//!
//! A [`ReductorPair`] reduces an iterator of single items with two strategies
//! in tandem, and the kinds nest, so that one loop computes a whole tree of
//! results:
//!
//! ```rust
//! use reductor::{Count, Max, Min, Reduce, ReductorPair, Sum};
//!
//! let iter = (0_i32..100).filter(|x| x % 2 != 0).map(|x| (x, x.leading_zeros()));
//!
//! let ReductorPair(
//!     Count(count),
//!     (Sum::<i32>(sum), ReductorPair(Min::<u32>(min), Max::<u32>(max))),
//! ) = iter.clone().reduce_with::<Option<_>>().unwrap();
//!
//! assert_eq!(count, iter.clone().count());
//! assert_eq!(sum, iter.clone().map(|(x, ..)| x).sum());
//! assert_eq!(min, iter.clone().map(|(.., x)| x).min().unwrap());
//! assert_eq!(max, iter.map(|(.., x)| x).max().unwrap());
//! ```
//!
//! # What is proved
//!
//! Every strategy states its model beside its operations: what state a first
//! item makes, what state follows a state and an item, what result a state
//! gives, and which items it may take. [`fold_spec`] is the state after a
//! sequence has been taken in, and the contracts of `reduce_with` and
//! `fold_with` say that their result is that of this state. The module
//! [`laws`] proves what adapted and combined strategies compute in terms of
//! their parts.
pub mod iter;
pub mod laws;
pub mod reductor;
pub mod reductors;
pub mod tuples;

pub use crate::iter::{converted, is_default, Reduce};
pub use crate::reductor::{
    clones_faithfully, fold_req, fold_spec, run_req, run_spec, Reductor, ReductorPair,
};
pub use crate::reductors::count::{Count, CountNonZero, NonZeroCount};
pub use crate::reductors::min_max::{Max, Min, MinMax};
pub use crate::reductors::product::Product;
pub use crate::reductors::sum::Sum;
