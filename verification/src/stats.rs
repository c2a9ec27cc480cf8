//! Summary figures for a batch of observations.

use crate::extrema::{
    cheapest_of,
    dearest_of,
    is_maximum_of,
    is_minimum_of,
    lemma_cheapest_is_minimum,
    lemma_dearest_is_maximum,
};
use crate::price::Price;
use crate::quantity::{lemma_sum_is_bounded, sum_of, total_quantity};
use vstd::prelude::*;

verus! {

/// The name under which the mean is reported.
pub const MEAN_KEY: &'static str = "mean";

/// The name under which the least price is reported.
pub const MIN_KEY: &'static str = "min_val";

/// The name under which the greatest price is reported.
pub const MAX_KEY: &'static str = "max_val";

/// The name under which the total quantity is reported.
pub const TOTAL_KEY: &'static str = "total_qty";

/// How the mean price of a batch is obtained.
#[derive(Clone, Copy, Debug, PartialEq, Eq, Structural)]
pub enum Mean {
    /// No price was observed; the mean is reported as zero.
    Zero,
    /// The sum of the prices divided by `count`, the number of prices.
    /// [`aggregate_stats`] gives this for a batch with prices only, so with
    /// a `count` above zero.
    SumOver { count: usize },
}

/// The summary of a batch: its mean and extreme prices and the total of its
/// quantities.
#[derive(Clone, Copy, Debug, PartialEq, Eq, Structural)]
pub struct Stats {
    pub mean: Mean,
    pub min_val: Price,
    pub max_val: Price,
    pub total_qty: i128,
}

impl Stats {
    /// The summary of a batch without prices: every figure is zero.
    pub open spec fn spec_empty() -> Stats {
        Stats { mean: Mean::Zero, min_val: Price::zero(), max_val: Price::zero(), total_qty: 0 }
    }

    /// The summary of a batch without prices: every figure is zero.
    #[verifier::when_used_as_spec(spec_empty)]
    pub fn empty() -> (stats: Stats)
        ensures
            stats == Stats::spec_empty(),
    {
        Stats { mean: Mean::Zero, min_val: Price::zero(), max_val: Price::zero(), total_qty: 0 }
    }
}

/// The summary of the given prices and quantities.
///
/// Without prices every figure is zero, whatever the quantities are.
/// Otherwise the extremes are those of the prices, the mean is their sum over
/// their number, and the total is that of all the quantities, however many
/// there are.
pub open spec fn stats_of(prices: Seq<Price>, quantities: Seq<i64>) -> Stats {
    if prices.len() == 0 {
        Stats::empty()
    } else {
        Stats {
            mean: Mean::SumOver { count: prices.len() as usize },
            min_val: cheapest_of(prices),
            max_val: dearest_of(prices),
            total_qty: sum_of(quantities) as i128,
        }
    }
}

/// Summarises a batch of prices and quantities.
///
/// The two sequences need not be of one length: quantities are only added
/// up, never paired with prices.
pub fn aggregate_stats(prices: &[Price], quantities: &[i64]) -> (stats: Stats)
    ensures
        stats == stats_of(prices@, quantities@),
        prices@.len() > 0 ==> stats.mean == (Mean::SumOver { count: prices.len() }),
        prices@.len() > 0 ==> is_minimum_of(prices@, stats.min_val),
        prices@.len() > 0 ==> is_maximum_of(prices@, stats.max_val),
        prices@.len() > 0 ==> stats.total_qty == sum_of(quantities@),
{
    if prices.len() == 0 {
        return Stats::empty();
    }
    let mut min_val: Price = Price::infinity();
    let mut max_val: Price = Price::neg_infinity();
    let mut i: usize = 0;
    while i < prices.len()
        invariant
            i <= prices.len(),
            min_val == cheapest_of(prices@.take(i as int)),
            max_val == dearest_of(prices@.take(i as int)),
        decreases prices.len() - i,
    {
        proof {
            assert(prices@.take(i + 1).drop_last() == prices@.take(i as int));
        }
        min_val = min_val.min(prices[i]);
        max_val = max_val.max(prices[i]);
        i += 1;
    }
    proof {
        assert(prices@.take(prices.len() as int) == prices@);
        lemma_cheapest_is_minimum(prices@);
        lemma_dearest_is_maximum(prices@);
        lemma_sum_is_bounded(quantities@);
    }
    let total_qty: i128 = total_quantity(quantities);
    Stats { mean: Mean::SumOver { count: prices.len() }, min_val, max_val, total_qty }
}

} // verus!
