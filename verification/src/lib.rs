//! Lightweight statistics over observed prices and quantities.
//!
//! Prices are binary64 numbers held by their bit patterns, quantities are
//! signed integers. The crate finds the cheapest price of a batch, summarises
//! a batch, settles how its weighted average is obtained, and gives a
//! reproducible estimate for an item at a location. Whatever is a whole number
//! or a choice between cases it works out itself; of a quotient of
//! floating-point sums it states the divisor and leaves the division to the
//! caller.
//!
//! Nothing is kept between calls: every contract equates the result with a
//! function of the arguments alone, so equal arguments give equal results.

pub mod average;
pub mod error;
pub mod extrema;
pub mod predict;
pub mod price;
pub mod quantity;
pub mod stats;

pub use crate::average::{weighted_average_price, WeightedAverage};
pub use crate::error::PricingError;
pub use crate::extrema::cheapest;
pub use crate::predict::predict_price;
pub use crate::price::Price;
pub use crate::quantity::total_quantity;
pub use crate::stats::{aggregate_stats, Mean, Stats};
