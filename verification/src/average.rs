//! The average price of a batch, each price weighted by its quantity.

use crate::error::PricingError;
use crate::price::Price;
use crate::quantity::{lemma_sum_is_bounded, sum_of, total_quantity};
use vstd::prelude::*;

verus! {

/// How the weighted average of a batch is obtained.
#[derive(Clone, Copy, Debug, PartialEq, Eq, Structural)]
pub enum WeightedAverage {
    /// Nothing was observed, or the quantities add up to zero; the average is
    /// reported as zero.
    Zero,
    /// The sum of each price times its quantity, divided by `total_qty`, the
    /// sum of the quantities. [`weighted_average_price`] gives this with a
    /// `total_qty` other than zero only.
    WeightedSumOver { total_qty: i128 },
}

/// The weighted average that the given quantities call for.
pub open spec fn weighted_average_of(quantities: Seq<i64>) -> WeightedAverage {
    if quantities.len() == 0 || sum_of(quantities) == 0 {
        WeightedAverage::Zero
    } else {
        WeightedAverage::WeightedSumOver { total_qty: sum_of(quantities) as i128 }
    }
}

/// What a request for the weighted average of `price_count` prices with the
/// given quantities comes to: a refusal unless there is one quantity to each
/// price.
pub open spec fn weighted_average_price_of(price_count: nat, quantities: Seq<i64>) -> Result<
    WeightedAverage,
    PricingError,
> {
    if price_count != quantities.len() {
        Err(PricingError::InvalidArgument)
    } else {
        Ok(weighted_average_of(quantities))
    }
}

/// Settles how the weighted average of the prices is obtained, each price
/// paired with the quantity at its position.
///
/// Prices and quantities that differ in number are refused. A batch whose
/// quantities add up to zero, the empty batch among them, averages to zero,
/// so that nothing is ever divided by zero. For any other batch the divisor
/// comes back; the prices themselves decide nothing.
pub fn weighted_average_price(prices: &[Price], quantities: &[i64]) -> (result: Result<
    WeightedAverage,
    PricingError,
>)
    ensures
        result == weighted_average_price_of(prices@.len(), quantities@),
        result is Err <==> prices@.len() != quantities@.len(),
        result is Ok ==> (result->Ok_0 is Zero <==> sum_of(quantities@) == 0),
        result is Ok && result->Ok_0 is WeightedSumOver ==> result->Ok_0->total_qty == sum_of(
            quantities@,
        ) && result->Ok_0->total_qty != 0,
{
    if prices.len() != quantities.len() {
        return Err(PricingError::InvalidArgument);
    }
    if prices.len() == 0 {
        return Ok(WeightedAverage::Zero);
    }
    let total_qty: i128 = total_quantity(quantities);
    proof {
        lemma_sum_is_bounded(quantities@);
    }
    if total_qty == 0 {
        return Ok(WeightedAverage::Zero);
    }
    Ok(WeightedAverage::WeightedSumOver { total_qty })
}

} // verus!
