//! Totals of observed quantities.

use vstd::prelude::*;

verus! {

/// The sum of the quantities, as a mathematical integer.
pub open spec fn sum_of(quantities: Seq<i64>) -> int
    decreases quantities.len(),
{
    if quantities.len() == 0 {
        0
    } else {
        sum_of(quantities.drop_last()) + quantities.last()
    }
}

/// A sum of `n` quantities lies within `n` times the range of one quantity.
pub proof fn lemma_sum_is_bounded(quantities: Seq<i64>)
    ensures
        quantities.len() * i64::MIN <= sum_of(quantities) <= quantities.len() * i64::MAX,
    decreases quantities.len(),
{
    if quantities.len() > 0 {
        lemma_sum_is_bounded(quantities.drop_last());
    }
}

/// Adds up the quantities.
///
/// The total is exact: as many quantities as memory can hold never leave the
/// range of the result, so nothing wraps and nothing is cut off.
pub fn total_quantity(quantities: &[i64]) -> (total: i128)
    ensures
        total == sum_of(quantities@),
{
    let mut total: i128 = 0;
    let mut i: usize = 0;
    while i < quantities.len()
        invariant
            i <= quantities.len(),
            total == sum_of(quantities@.take(i as int)),
        decreases quantities.len() - i,
    {
        proof {
            assert(quantities@.take(i + 1).drop_last() == quantities@.take(i as int));
            lemma_sum_is_bounded(quantities@.take(i as int));
        }
        total = total + quantities[i] as i128;
        i += 1;
    }
    proof {
        assert(quantities@.take(quantities.len() as int) == quantities@);
    }
    total
}

} // verus!
