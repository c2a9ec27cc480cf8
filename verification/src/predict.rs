//! A synthetic, reproducible price estimate for an item at a location.

use vstd::prelude::*;

verus! {

/// The lowest estimate that is ever produced.
pub const BASE_PRICE: u64 = 400;

/// The estimate for an item name of `item_len` bytes at a location name of
/// `location_len` bytes: the base price plus a three-digit figure drawn from
/// the two lengths.
pub open spec fn predicted_price(item_len: nat, location_len: nat) -> nat {
    (BASE_PRICE + (item_len * 100 + location_len * 50) % 1000) as nat
}

/// Estimates the price of `item` at `location`, in whole currency units.
///
/// Only the byte lengths of the two strings enter the estimate; what they
/// spell does not.
pub fn predict_price(item: &str, location: &str) -> (price: u64)
    ensures
        price == predicted_price(item.len() as nat, location.len() as nat),
        BASE_PRICE <= price < BASE_PRICE + 1000,
{
    let item_len: u128 = item.len() as u128;
    let location_len: u128 = location.len() as u128;
    let figure: u128 = (item_len * 100 + location_len * 50) % 1000;
    BASE_PRICE + figure as u64
}

/// Two pairs of names whose lengths agree get the same estimate, whatever
/// the names spell.
pub proof fn lemma_estimate_depends_on_lengths_only(
    item: &str,
    location: &str,
    other_item: &str,
    other_location: &str,
)
    requires
        item.len() == other_item.len(),
        location.len() == other_location.len(),
    ensures
        predicted_price(item.len() as nat, location.len() as nat) == predicted_price(
            other_item.len() as nat,
            other_location.len() as nat,
        ),
{
}

} // verus!
