//! Prices, scores and capital figures as IEEE 754 double-precision bit patterns.
//!
//! The engine compares such figures and hands them on; it never computes with them here. The
//! comparisons below are those of the numbers that the patterns stand for.
use vstd::prelude::*;

verus! {

/// The bit pattern of negative zero, which is the sign bit alone.
pub const SIGN_BIT: u64 = 0x8000_0000_0000_0000;

/// The bit pattern of positive infinity.
pub const INFINITY_BITS: u64 = 0x7FF0_0000_0000_0000;

/// A double-precision number, by its bit pattern.
#[derive(Clone, Copy, Debug, PartialEq, Eq, Structural)]
pub struct Amount {
    /// IEEE 754 bit pattern.
    pub bits: u64,
}

impl Amount {
    /// The pattern without its sign bit.
    pub open spec fn magnitude(self) -> int {
        if self.bits >= SIGN_BIT {
            self.bits - SIGN_BIT
        } else {
            self.bits as int
        }
    }

    /// Whether the pattern stands for no number.
    pub open spec fn is_nan(self) -> bool {
        self.magnitude() > INFINITY_BITS
    }

    /// The position of the number among all numbers; both zeros stand at zero.
    pub open spec fn rank(self) -> int {
        if self.bits >= SIGN_BIT {
            -self.magnitude()
        } else {
            self.magnitude()
        }
    }

    /// The position of the pattern among all patterns in the IEEE 754 `totalOrder`.
    pub open spec fn total_rank(self) -> int {
        if self.bits >= SIGN_BIT {
            -self.magnitude() - 1
        } else {
            self.magnitude()
        }
    }

    /// Whether both patterns are numbers and the first is below the second.
    pub open spec fn below(self, other: Amount) -> bool {
        !self.is_nan() && !other.is_nan() && self.rank() < other.rank()
    }

    /// Whether both patterns are numbers and the first is at most the second.
    pub open spec fn at_most(self, other: Amount) -> bool {
        !self.is_nan() && !other.is_nan() && self.rank() <= other.rank()
    }

    /// Whether the pattern is a number above zero.
    pub open spec fn above_zero(self) -> bool {
        !self.is_nan() && self.rank() > 0
    }

    /// Whether the pattern is a number that is zero or below.
    pub open spec fn zero_or_below(self) -> bool {
        !self.is_nan() && self.rank() <= 0
    }

    /// The larger of two numbers; a pattern that is no number gives way to the other.
    pub open spec fn larger_of(self, other: Amount) -> Amount {
        if self.is_nan() || (!other.is_nan() && self.rank() < other.rank()) {
            other
        } else {
            self
        }
    }

    /// The smaller of two numbers; a pattern that is no number gives way to the other.
    pub open spec fn smaller_of(self, other: Amount) -> Amount {
        if self.is_nan() || (!other.is_nan() && other.rank() < self.rank()) {
            other
        } else {
            self
        }
    }

    /// The number with its sign flipped.
    pub open spec fn negated_spec(self) -> Amount {
        Amount {
            bits: if self.bits >= SIGN_BIT {
                (self.bits - SIGN_BIT) as u64
            } else {
                (self.bits + SIGN_BIT) as u64
            },
        }
    }

    fn magnitude_bits(self) -> (m: u64)
        ensures
            m == self.magnitude(),
    {
        if self.bits >= SIGN_BIT {
            self.bits - SIGN_BIT
        } else {
            self.bits
        }
    }

    /// Returns whether the pattern stands for no number.
    pub fn not_a_number(self) -> (nan: bool)
        ensures
            nan == self.is_nan(),
    {
        self.magnitude_bits() > INFINITY_BITS
    }

    /// Returns whether the pattern stands for a finite number.
    pub fn is_finite(self) -> (finite: bool)
        ensures
            finite == (self.magnitude() < INFINITY_BITS),
    {
        self.magnitude_bits() < INFINITY_BITS
    }

    /// Returns the position of the pattern in the total order.
    pub fn total_key(self) -> (key: i128)
        ensures
            key == self.total_rank(),
    {
        let magnitude: i128 = self.magnitude_bits() as i128;
        if self.bits >= SIGN_BIT {
            -magnitude - 1
        } else {
            magnitude
        }
    }

    fn rank_key(self) -> (key: i128)
        ensures
            key == self.rank(),
    {
        let magnitude: i128 = self.magnitude_bits() as i128;
        if self.bits >= SIGN_BIT {
            -magnitude
        } else {
            magnitude
        }
    }

    /// Returns whether this number is below `other`.
    pub fn is_below(self, other: Amount) -> (yes: bool)
        ensures
            yes == self.below(other),
    {
        !self.not_a_number() && !other.not_a_number() && self.rank_key() < other.rank_key()
    }

    /// Returns whether this number is at most `other`.
    pub fn is_at_most(self, other: Amount) -> (yes: bool)
        ensures
            yes == self.at_most(other),
    {
        !self.not_a_number() && !other.not_a_number() && self.rank_key() <= other.rank_key()
    }

    /// Returns whether this number is above zero.
    pub fn is_above_zero(self) -> (yes: bool)
        ensures
            yes == self.above_zero(),
    {
        !self.not_a_number() && self.rank_key() > 0
    }

    /// Returns whether this number is zero, of either sign.
    pub fn is_zero(self) -> (yes: bool)
        ensures
            yes == (!self.is_nan() && self.rank() == 0),
    {
        !self.not_a_number() && self.rank_key() == 0
    }

    /// Returns the larger of two numbers; a pattern that is no number gives way to the other.
    pub fn larger(self, other: Amount) -> (found: Amount)
        ensures
            found == self.larger_of(other),
    {
        if self.not_a_number() || (!other.not_a_number() && self.rank_key() < other.rank_key()) {
            other
        } else {
            self
        }
    }

    /// Returns the smaller of two numbers; a pattern that is no number gives way to the other.
    pub fn smaller(self, other: Amount) -> (found: Amount)
        ensures
            found == self.smaller_of(other),
    {
        if self.not_a_number() || (!other.not_a_number() && other.rank_key() < self.rank_key()) {
            other
        } else {
            self
        }
    }

    /// Returns whether this number is zero or below.
    pub fn is_zero_or_below(self) -> (yes: bool)
        ensures
            yes == self.zero_or_below(),
    {
        !self.not_a_number() && self.rank_key() <= 0
    }

    /// Returns the number with its sign flipped.
    pub fn negated(self) -> (flipped: Amount)
        ensures
            flipped == self.negated_spec(),
    {
        if self.bits >= SIGN_BIT {
            Amount { bits: self.bits - SIGN_BIT }
        } else {
            Amount { bits: self.bits + SIGN_BIT }
        }
    }
}

/// A number with the text that reports show for it, two digits after the point.
#[derive(Clone, Debug)]
pub struct Figure {
    /// The number.
    pub amount: Amount,
    /// Its text in reports.
    pub text: String,
}

impl Figure {
    /// Returns a copy.
    pub fn copy(&self) -> (copy: Figure)
        ensures
            copy == *self,
    {
        Figure { amount: self.amount, text: self.text.clone() }
    }
}

/// Returns a copy of an optional figure.
pub fn copy_figure(figure: &Option<Figure>) -> (copy: Option<Figure>)
    ensures
        copy == *figure,
{
    match figure {
        Some(value) => Some(value.copy()),
        None => None,
    }
}

/// Flipping the sign twice gives back the number, and flipping reverses the order of numbers.
pub proof fn negation_reverses_order(a: Amount, b: Amount)
    ensures
        a.negated_spec().negated_spec() == a,
        a.below(b) <==> b.negated_spec().below(a.negated_spec()),
        a.at_most(b) <==> b.negated_spec().at_most(a.negated_spec()),
{
}

/// The total order tells every two different patterns apart and agrees with the order of numbers.
pub proof fn total_order_refines_number_order(a: Amount, b: Amount)
    ensures
        a.total_rank() == b.total_rank() ==> a == b,
        a.below(b) ==> a.total_rank() < b.total_rank(),
{
}

} // verus!
