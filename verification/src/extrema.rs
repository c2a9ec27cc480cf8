//! The least and the greatest of a sequence of prices.
//!
//! Both are folds over the sequence that start from an infinity and let every
//! NaN pass, so that the result is always a number: the infinity where the
//! sequence holds no number at all.

use crate::price::Price;
use vstd::prelude::*;

verus! {

/// The least price of the sequence: positive infinity lowered by each price
/// in turn.
pub open spec fn cheapest_of(prices: Seq<Price>) -> Price
    decreases prices.len(),
{
    if prices.len() == 0 {
        Price::infinity()
    } else {
        cheapest_of(prices.drop_last()).min(prices.last())
    }
}

/// The greatest price of the sequence: negative infinity raised by each price
/// in turn.
pub open spec fn dearest_of(prices: Seq<Price>) -> Price
    decreases prices.len(),
{
    if prices.len() == 0 {
        Price::neg_infinity()
    } else {
        dearest_of(prices.drop_last()).max(prices.last())
    }
}

/// Whether some price of the sequence is a number.
pub open spec fn has_number(prices: Seq<Price>) -> bool {
    exists|i: int| 0 <= i < prices.len() && !(#[trigger] prices[i]).is_nan()
}

/// Whether `least` is the minimum of the numbers in `prices`: a number that
/// none of them is below, and one of them unless there is none, in which
/// case it is positive infinity.
pub open spec fn is_minimum_of(prices: Seq<Price>, least: Price) -> bool {
    &&& !least.is_nan()
    &&& forall|i: int| 0 <= i < prices.len() ==> !(#[trigger] prices[i]).lt(least)
    &&& if has_number(prices) {
        prices.contains(least)
    } else {
        least == Price::infinity()
    }
}

/// Whether `greatest` is the maximum of the numbers in `prices`: a number that
/// none of them is above, and one of them unless there is none, in which
/// case it is negative infinity.
pub open spec fn is_maximum_of(prices: Seq<Price>, greatest: Price) -> bool {
    &&& !greatest.is_nan()
    &&& forall|i: int| 0 <= i < prices.len() ==> !greatest.lt(#[trigger] prices[i])
    &&& if has_number(prices) {
        prices.contains(greatest)
    } else {
        greatest == Price::neg_infinity()
    }
}

/// The fold from positive infinity yields the minimum of the numbers in the
/// sequence, and positive infinity for a sequence without numbers, the empty
/// one among them.
pub proof fn lemma_cheapest_is_minimum(prices: Seq<Price>)
    ensures
        is_minimum_of(prices, cheapest_of(prices)),
        prices.len() == 0 ==> cheapest_of(prices) == Price::infinity(),
    decreases prices.len(),
{
    if prices.len() > 0 {
        let front = prices.drop_last();
        let least = cheapest_of(prices);
        lemma_cheapest_is_minimum(front);
        assert forall|i: int| 0 <= i < prices.len() implies !(#[trigger] prices[i]).lt(least) by {
            if i < front.len() {
                assert(front[i] == prices[i]);
            }
        }
        if has_number(prices) && least != prices.last() {
            // The last price changes nothing, so a number stands before it,
            // and the result is the one that `front` gives.
            let k = choose|k: int| 0 <= k < prices.len() && !(#[trigger] prices[k]).is_nan();
            if k < front.len() {
                assert(!front[k].is_nan());
            }
            assert(has_number(front));
            let j = choose|j: int| 0 <= j < front.len() && front[j] == cheapest_of(front);
            assert(prices[j] == least);
        }
    }
}

/// The fold from negative infinity yields the maximum of the numbers in the
/// sequence, and negative infinity for a sequence without numbers, the empty
/// one among them.
pub proof fn lemma_dearest_is_maximum(prices: Seq<Price>)
    ensures
        is_maximum_of(prices, dearest_of(prices)),
        prices.len() == 0 ==> dearest_of(prices) == Price::neg_infinity(),
    decreases prices.len(),
{
    if prices.len() > 0 {
        let front = prices.drop_last();
        let greatest = dearest_of(prices);
        lemma_dearest_is_maximum(front);
        assert forall|i: int| 0 <= i < prices.len() implies !greatest.lt(#[trigger] prices[i]) by {
            if i < front.len() {
                assert(front[i] == prices[i]);
            }
        }
        if has_number(prices) && greatest != prices.last() {
            // The last price changes nothing, so a number stands before it,
            // and the result is the one that `front` gives.
            let k = choose|k: int| 0 <= k < prices.len() && !(#[trigger] prices[k]).is_nan();
            if k < front.len() {
                assert(!front[k].is_nan());
            }
            assert(has_number(front));
            let j = choose|j: int| 0 <= j < front.len() && front[j] == dearest_of(front);
            assert(prices[j] == greatest);
        }
    }
}

/// Any two minima of one sequence are the same number.
pub proof fn lemma_minimum_is_unique(prices: Seq<Price>, one: Price, other: Price)
    requires
        is_minimum_of(prices, one),
        is_minimum_of(prices, other),
    ensures
        one.same_number(other),
{
    if has_number(prices) {
        let i = choose|i: int| 0 <= i < prices.len() && prices[i] == one;
        let j = choose|j: int| 0 <= j < prices.len() && prices[j] == other;
        assert(!prices[i].lt(other) && !prices[j].lt(one));
    }
}

/// Any two maxima of one sequence are the same number.
pub proof fn lemma_maximum_is_unique(prices: Seq<Price>, one: Price, other: Price)
    requires
        is_maximum_of(prices, one),
        is_maximum_of(prices, other),
    ensures
        one.same_number(other),
{
    if has_number(prices) {
        let i = choose|i: int| 0 <= i < prices.len() && prices[i] == one;
        let j = choose|j: int| 0 <= j < prices.len() && prices[j] == other;
        assert(!other.lt(prices[i]) && !one.lt(prices[j]));
    }
}

/// Finds the cheapest of the observed prices.
///
/// Positive infinity comes back where no number was observed, which callers
/// read as "no data". A NaN among the prices is passed over.
pub fn cheapest(prices: &[Price]) -> (least: Price)
    ensures
        least == cheapest_of(prices@),
        is_minimum_of(prices@, least),
        prices@.len() == 0 ==> least == Price::infinity(),
{
    let mut least: Price = Price::infinity();
    let mut i: usize = 0;
    while i < prices.len()
        invariant
            i <= prices.len(),
            least == cheapest_of(prices@.take(i as int)),
        decreases prices.len() - i,
    {
        proof {
            assert(prices@.take(i + 1).drop_last() == prices@.take(i as int));
        }
        least = least.min(prices[i]);
        i += 1;
    }
    proof {
        assert(prices@.take(prices.len() as int) == prices@);
        lemma_cheapest_is_minimum(prices@);
    }
    least
}

} // verus!
