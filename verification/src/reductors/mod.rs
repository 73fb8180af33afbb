//! The standard strategies: counting, sums, products and extrema.
pub mod count;
pub mod min_max;
pub mod product;
pub mod state;
pub mod sum;

pub use self::count::{Count, CountNonZero, NonZeroCount};
pub use self::min_max::{Max, Min, MinMax};
pub use self::product::Product;
pub use self::sum::Sum;
