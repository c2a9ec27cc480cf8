//! Prices as IEEE 754 binary64 values, held by their bit patterns.
//!
//! A binary64 value is a sign bit above a 63-bit magnitude. Magnitudes up to
//! [`INFINITY_BITS`] grow with the number they encode, [`INFINITY_BITS`] itself
//! encodes infinity, and every magnitude above it encodes a NaN. Reading the
//! magnitude as an integer and negating it under a set sign bit therefore gives
//! a key, the [`Price::rank`], that orders all values but the NaNs as numbers,
//! with the two zeros sharing rank zero. [`lemma_rank_orders_as_numbers`]
//! proves this of the numbers that the patterns encode.

use vstd::arithmetic::mul::{lemma_mul_inequality, lemma_mul_strict_inequality};
use vstd::arithmetic::power2::{
    lemma_pow2_pos,
    lemma_pow2_strictly_increases,
    lemma_pow2_unfold,
    pow2,
};
use vstd::prelude::*;

verus! {

/// The bit that carries the sign.
pub const SIGN_BIT: u64 = 0x8000_0000_0000_0000;

/// The bit pattern of positive infinity.
pub const INFINITY_BITS: u64 = 0x7FF0_0000_0000_0000;

/// The bit pattern of negative infinity.
pub const NEG_INFINITY_BITS: u64 = 0xFFF0_0000_0000_0000;

/// Two to the 52nd: the weight of the lowest exponent bit within a pattern,
/// and the leading bit that the fraction of a normal number leaves unwritten.
pub const HIDDEN_BIT: u64 = 0x0010_0000_0000_0000;

/// The size of the number with the given magnitude, counted in steps of the
/// least positive number, two to the minus 1074th.
///
/// The magnitude splits into an exponent above a fraction of 52 bits. With
/// exponent zero the fraction is the count itself. Otherwise the fraction is
/// topped by the hidden bit and doubled once for each exponent above one.
pub open spec fn size_of(magnitude: int) -> int {
    let exponent = magnitude / (HIDDEN_BIT as int);
    let fraction = magnitude % (HIDDEN_BIT as int);
    if exponent == 0 {
        fraction
    } else {
        (HIDDEN_BIT + fraction) * pow2((exponent - 1) as nat)
    }
}

/// A greater magnitude encodes a number of greater size.
pub proof fn lemma_size_grows(low: int, high: int)
    requires
        0 <= low < high,
    ensures
        0 <= size_of(low) < size_of(high),
{
    let hidden = HIDDEN_BIT as int;
    let low_exponent = low / hidden;
    let low_top = hidden + low % hidden;
    let high_exponent = high / hidden;
    let high_top = hidden + high % hidden;
    let high_scale = pow2((high_exponent - 1) as nat) as int;
    assert(0 <= low_exponent <= high_exponent);
    if low_exponent > 0 {
        lemma_pow2_pos((low_exponent - 1) as nat);
        lemma_mul_inequality(0, low_top, pow2((low_exponent - 1) as nat) as int);
    }
    if low_exponent == high_exponent {
        // One scale for both, and the lesser fraction under it.
        if low_exponent > 0 {
            lemma_mul_strict_inequality(low_top, high_top, high_scale);
        }
    } else {
        // The higher exponent alone outweighs whatever the lower one carries.
        lemma_pow2_pos((high_exponent - 1) as nat);
        lemma_mul_inequality(1, high_scale, high_top);
        assert(hidden <= high_top * high_scale) by {
            assert(high_scale * high_top == high_top * high_scale) by (nonlinear_arith);
        }
        if low_exponent > 0 {
            // Topped by the hidden bit, the fraction of `low` stays below
            // twice the hidden bit, and the scale of `high` is at least
            // twice that of `low`.
            let low_scale = pow2((low_exponent - 1) as nat) as int;
            lemma_pow2_unfold(low_exponent as nat);
            if low_exponent < high_exponent - 1 {
                lemma_pow2_strictly_increases(low_exponent as nat, (high_exponent - 1) as nat);
            }
            assert(2 * low_scale <= high_scale);
            lemma_mul_strict_inequality(low_top, 2 * hidden, low_scale);
            lemma_mul_inequality(2 * low_scale, high_scale, hidden);
            assert(low_top * low_scale < hidden * high_scale) by {
                assert((2 * hidden) * low_scale == (2 * low_scale) * hidden) by (nonlinear_arith);
                assert(high_scale * hidden == hidden * high_scale) by (nonlinear_arith);
            }
            lemma_mul_inequality(hidden, high_top, high_scale);
        }
    }
}

/// One observed price: the bit pattern of a binary64 value.
///
/// `==` on prices compares bit patterns. It tells the two zeros apart and
/// finds a NaN equal to itself; [`Price::same_number`] compares as numbers.
#[derive(Clone, Copy, Debug, PartialEq, Eq, Structural)]
pub struct Price {
    pub bits: u64,
}

impl Price {
    /// The bits below the sign bit, read as an integer.
    pub open spec fn magnitude(self) -> int {
        if self.bits >= SIGN_BIT {
            self.bits - SIGN_BIT
        } else {
            self.bits as int
        }
    }

    /// Whether the sign bit is set.
    pub open spec fn is_negative(self) -> bool {
        self.bits >= SIGN_BIT
    }

    /// Whether the pattern encodes a NaN rather than a number.
    pub open spec fn spec_is_nan(self) -> bool {
        self.magnitude() > INFINITY_BITS
    }

    /// The key that orders prices as numbers: the magnitude, negated under a
    /// set sign bit. It means nothing for a NaN.
    pub open spec fn rank(self) -> int {
        if self.is_negative() {
            -self.magnitude()
        } else {
            self.magnitude()
        }
    }

    /// Whether the pattern encodes a finite number: neither an infinity nor
    /// a NaN.
    pub open spec fn is_finite(self) -> bool {
        self.magnitude() < INFINITY_BITS
    }

    /// The number that a finite price encodes, counted in steps of the least
    /// positive number, two to the minus 1074th: an integer for every
    /// finite price, and zero for both zeros.
    ///
    /// An infinity is counted as if it were the number that its pattern
    /// would encode one exponent above the greatest finite one. The count
    /// means nothing for a NaN.
    pub open spec fn steps(self) -> int {
        if self.is_negative() {
            -size_of(self.magnitude())
        } else {
            size_of(self.magnitude())
        }
    }

    /// Numeric `<`: false whenever either side is a NaN.
    pub open spec fn spec_lt(self, other: Price) -> bool {
        !self.spec_is_nan() && !other.spec_is_nan() && self.rank() < other.rank()
    }

    /// Numeric `==`: false whenever either side is a NaN, true of the two
    /// zeros.
    pub open spec fn spec_same_number(self, other: Price) -> bool {
        !self.spec_is_nan() && !other.spec_is_nan() && self.rank() == other.rank()
    }

    /// The lesser of two prices, a NaN giving way to the other side. Of two
    /// equal numbers it is `self`.
    pub open spec fn spec_min(self, other: Price) -> Price {
        if other.spec_is_nan() {
            self
        } else if self.spec_is_nan() {
            other
        } else if other.rank() < self.rank() {
            other
        } else {
            self
        }
    }

    /// The greater of two prices, a NaN giving way to the other side. Of two
    /// equal numbers it is `self`.
    pub open spec fn spec_max(self, other: Price) -> Price {
        if other.spec_is_nan() {
            self
        } else if self.spec_is_nan() {
            other
        } else if other.rank() > self.rank() {
            other
        } else {
            self
        }
    }

    /// Positive infinity, which stands for "no price observed".
    pub open spec fn spec_infinity() -> Price {
        Price { bits: INFINITY_BITS }
    }

    /// Negative infinity.
    pub open spec fn spec_neg_infinity() -> Price {
        Price { bits: NEG_INFINITY_BITS }
    }

    /// Positive zero.
    pub open spec fn spec_zero() -> Price {
        Price { bits: 0 }
    }

    /// The price with the given bit pattern.
    pub fn from_bits(bits: u64) -> (price: Price)
        ensures
            price.bits == bits,
    {
        Price { bits }
    }

    /// The bit pattern of the price.
    pub fn to_bits(self) -> (bits: u64)
        ensures
            bits == self.bits,
    {
        self.bits
    }

    /// Positive infinity, which stands for "no price observed".
    #[verifier::when_used_as_spec(spec_infinity)]
    pub fn infinity() -> (price: Price)
        ensures
            price == Price::spec_infinity(),
    {
        Price { bits: INFINITY_BITS }
    }

    /// Negative infinity.
    #[verifier::when_used_as_spec(spec_neg_infinity)]
    pub fn neg_infinity() -> (price: Price)
        ensures
            price == Price::spec_neg_infinity(),
    {
        Price { bits: NEG_INFINITY_BITS }
    }

    /// Positive zero.
    #[verifier::when_used_as_spec(spec_zero)]
    pub fn zero() -> (price: Price)
        ensures
            price == Price::spec_zero(),
    {
        Price { bits: 0 }
    }

    /// Whether the price is a NaN rather than a number.
    #[verifier::when_used_as_spec(spec_is_nan)]
    pub fn is_nan(self) -> (nan: bool)
        ensures
            nan == self.spec_is_nan(),
    {
        if self.bits >= SIGN_BIT {
            self.bits - SIGN_BIT > INFINITY_BITS
        } else {
            self.bits > INFINITY_BITS
        }
    }

    /// The rank as a machine integer, for callers that sort or compare
    /// prices themselves.
    pub fn sort_key(self) -> (key: i64)
        ensures
            key == self.rank(),
    {
        if self.bits >= SIGN_BIT {
            let magnitude: u64 = self.bits - SIGN_BIT;
            -(magnitude as i64)
        } else {
            self.bits as i64
        }
    }

    /// Whether the price is a lesser number than `other`.
    #[verifier::when_used_as_spec(spec_lt)]
    pub fn lt(self, other: Price) -> (less: bool)
        ensures
            less == self.spec_lt(other),
    {
        !self.is_nan() && !other.is_nan() && self.sort_key() < other.sort_key()
    }

    /// Whether the price is the same number as `other`.
    #[verifier::when_used_as_spec(spec_same_number)]
    pub fn same_number(self, other: Price) -> (same: bool)
        ensures
            same == self.spec_same_number(other),
    {
        !self.is_nan() && !other.is_nan() && self.sort_key() == other.sort_key()
    }

    /// The lesser of the price and `other`, a NaN giving way to the other
    /// side.
    #[verifier::when_used_as_spec(spec_min)]
    pub fn min(self, other: Price) -> (least: Price)
        ensures
            least == self.spec_min(other),
    {
        if other.is_nan() {
            self
        } else if self.is_nan() {
            other
        } else if other.sort_key() < self.sort_key() {
            other
        } else {
            self
        }
    }

    /// The greater of the price and `other`, a NaN giving way to the other
    /// side.
    #[verifier::when_used_as_spec(spec_max)]
    pub fn max(self, other: Price) -> (greatest: Price)
        ensures
            greatest == self.spec_max(other),
    {
        if other.is_nan() {
            self
        } else if self.is_nan() {
            other
        } else if other.sort_key() > self.sort_key() {
            other
        } else {
            self
        }
    }
}

/// Ranks stand to each other as the encoded numbers do: a lower rank is a
/// lesser number, and an equal rank the same number.
pub proof fn lemma_rank_orders_as_numbers(one: Price, other: Price)
    ensures
        one.rank() < other.rank() <==> one.steps() < other.steps(),
        one.rank() == other.rank() <==> one.steps() == other.steps(),
{
    let low = one.magnitude();
    let high = other.magnitude();
    assert(size_of(0) == 0);
    if 0 < low {
        lemma_size_grows(0, low);
    }
    if 0 < high {
        lemma_size_grows(0, high);
    }
    if low < high {
        lemma_size_grows(low, high);
    }
    if high < low {
        lemma_size_grows(high, low);
    }
}

/// Every number lies between the infinities, and every finite one strictly.
pub proof fn lemma_infinities_bound_the_numbers(price: Price)
    requires
        !price.is_nan(),
    ensures
        !price.lt(Price::neg_infinity()),
        !Price::infinity().lt(price),
        price.is_finite() ==> Price::neg_infinity().lt(price) && price.lt(Price::infinity()),
{
}

} // verus!
