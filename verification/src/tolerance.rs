use vstd::prelude::*;
use crate::magnitude::Magnitude;

verus! {

/// The sign bit of a bit pattern.
pub const SIGN_BIT: u64 = 0x8000_0000_0000_0000;

/// The bit pattern of positive infinity. A pattern whose other bits than the
/// sign are above it is not a number.
pub const INFINITY_BITS: u64 = 0x7FF0_0000_0000_0000;

/// The bit pattern of the smallest positive normal magnitude.
pub const MIN_POSITIVE_BITS: u64 = 0x0010_0000_0000_0000;

/// The bit pattern of the absolute threshold: the machine epsilon times the
/// smallest positive normal magnitude, which is the smallest magnitude above
/// zero.
pub const ABSOLUTE_THRESHOLD_BITS: u64 = 0x0000_0000_0000_0001;

/// The bit pattern of the relative threshold, one hundred-thousandth.
pub const RELATIVE_THRESHOLD_BITS: u64 = 0x3EE4_F8B5_88E3_68F1;

impl Magnitude {
    /// The bit pattern without its sign.
    pub open spec fn unsigned(self) -> int {
        self.bits as int % 0x8000_0000_0000_0000
    }

    /// Whether the sign bit is set.
    pub open spec fn negative(self) -> bool {
        self.bits >= SIGN_BIT
    }

    /// Whether the pattern is not a number.
    pub open spec fn nan(self) -> bool {
        self.unsigned() > INFINITY_BITS
    }

    /// Whether the pattern is zero, of either sign.
    pub open spec fn zero(self) -> bool {
        self.unsigned() == 0
    }

    /// A whole number that orders the patterns that are numbers as their values
    /// are ordered; both zeros have rank 0.
    pub open spec fn rank(self) -> int {
        if self.negative() {
            -self.unsigned()
        } else {
            self.unsigned()
        }
    }

    /// Equality of values: no pattern that is not a number equals anything, and
    /// the two zeros are equal.
    pub open spec fn same_value(self, other: Magnitude) -> bool {
        !self.nan() && !other.nan() && self.rank() == other.rank()
    }

    /// The strict order of values; nothing is below or above a pattern that is
    /// not a number.
    pub open spec fn below(self, other: Magnitude) -> bool {
        !self.nan() && !other.nan() && self.rank() < other.rank()
    }

    /// Whether the pattern is not a number.
    pub fn is_nan(&self) -> (r: bool)
        ensures
            r == self.nan(),
    {
        self.bits % SIGN_BIT > INFINITY_BITS
    }

    /// Whether the pattern is zero, of either sign.
    pub fn is_zero(&self) -> (r: bool)
        ensures
            r == self.zero(),
    {
        self.bits % SIGN_BIT == 0
    }

    /// Whether two patterns have equal values.
    pub fn equals(&self, other: &Magnitude) -> (r: bool)
        ensures
            r == self.same_value(*other),
    {
        if self.is_nan() || other.is_nan() {
            false
        } else if self.is_zero() {
            other.is_zero()
        } else {
            self.bits == other.bits
        }
    }

    /// Whether the value of this pattern is strictly below that of the other.
    pub fn is_below(&self, other: &Magnitude) -> (r: bool)
        ensures
            r == self.below(*other),
    {
        if self.is_nan() || other.is_nan() {
            return false;
        }
        let left: u64 = self.bits % SIGN_BIT;
        let right: u64 = other.bits % SIGN_BIT;
        let left_negative: bool = self.bits >= SIGN_BIT;
        let right_negative: bool = other.bits >= SIGN_BIT;
        if left_negative && right_negative {
            right < left
        } else if left_negative {
            left > 0 || right > 0
        } else if right_negative {
            false
        } else {
            left < right
        }
    }
}

/// Whether `a` and `b` are practically equal, given their absolute difference
/// and its ratio to the smaller of the sum of their absolute values and the
/// largest finite magnitude. Equal values are equal. Else, where one of them is
/// zero or the difference is below the smallest positive normal magnitude, the
/// difference decides against the absolute threshold; in every other case the
/// ratio decides against the relative threshold.
pub open spec fn nearly_equal_given(
    a: Magnitude,
    b: Magnitude,
    difference: Magnitude,
    ratio: Magnitude,
) -> bool {
    if a.same_value(b) {
        true
    } else if a.zero() || b.zero() || difference.below(Magnitude { bits: MIN_POSITIVE_BITS }) {
        difference.below(Magnitude { bits: ABSOLUTE_THRESHOLD_BITS })
    } else {
        ratio.below(Magnitude { bits: RELATIVE_THRESHOLD_BITS })
    }
}

/// Decides whether two magnitudes are practically equal. The caller computes,
/// in 64-bit float arithmetic, `difference` as the absolute value of `a - b`,
/// and `ratio` as `difference` divided by the smaller of the sum of the two
/// absolute values and the largest finite magnitude.
pub fn nearly_equal(a: Magnitude, b: Magnitude, difference: Magnitude, ratio: Magnitude) -> (r: bool)
    ensures
        r == nearly_equal_given(a, b, difference, ratio),
{
    if a.equals(&b) {
        true
    } else if a.is_zero() || b.is_zero() || difference.is_below(
        &Magnitude { bits: MIN_POSITIVE_BITS },
    ) {
        difference.is_below(&Magnitude { bits: ABSOLUTE_THRESHOLD_BITS })
    } else {
        ratio.is_below(&Magnitude { bits: RELATIVE_THRESHOLD_BITS })
    }
}

/// A magnitude that is a number is practically equal to itself, whatever the
/// difference and the ratio.
pub proof fn lemma_nearly_equal_reflexive(a: Magnitude, difference: Magnitude, ratio: Magnitude)
    requires
        !a.nan(),
    ensures
        nearly_equal_given(a, a, difference, ratio),
{
}

/// Practical equality does not depend on the order of the two magnitudes.
pub proof fn lemma_nearly_equal_symmetric(
    a: Magnitude,
    b: Magnitude,
    difference: Magnitude,
    ratio: Magnitude,
)
    ensures
        nearly_equal_given(a, b, difference, ratio) == nearly_equal_given(b, a, difference, ratio),
{
}

/// Nothing but an equal value is practically equal to zero: a difference that is
/// a number and not zero is never below the absolute threshold.
pub proof fn lemma_only_zero_is_near_zero(
    a: Magnitude,
    b: Magnitude,
    difference: Magnitude,
    ratio: Magnitude,
)
    requires
        a.zero() || b.zero(),
        !a.same_value(b),
        !difference.negative(),
        !difference.zero(),
    ensures
        !nearly_equal_given(a, b, difference, ratio),
{
}

} // verus!
