//! Real numbers as IEEE 754 binary64 encodings, and their order.
//!
//! The library never does arithmetic on a real: it only asks whether one is
//! finite and whether one is less than another. Both questions are answered
//! from the encoding alone, so a number is held as the 64 bits that encode it:
//! one sign bit, then eleven exponent bits, then fifty-two fraction bits.

use vstd::prelude::*;

verus! {

/// The sign bit of an encoding.
pub const SIGN_BIT: u64 = 0x8000_0000_0000_0000;

/// The encoding of positive infinity: every exponent bit set, no fraction bit.
pub const INFINITY_BITS: u64 = 0x7ff0_0000_0000_0000;

/// A real number, an infinity or a NaN, held by its binary64 encoding.
#[derive(Clone, Copy, Debug)]
pub struct Real {
    pub bits: u64,
}

impl Real {
    /// Whether the sign bit is set.
    pub open spec fn negative(self) -> bool {
        self.bits >= SIGN_BIT
    }

    /// The encoding without its sign bit. Among numbers of one sign a larger
    /// magnitude encodes a number further from zero.
    pub open spec fn magnitude(self) -> int {
        if self.negative() {
            self.bits - SIGN_BIT
        } else {
            self.bits as int
        }
    }

    /// Whether this encodes a NaN: every exponent bit set and some fraction bit.
    pub open spec fn nan(self) -> bool {
        self.magnitude() > INFINITY_BITS
    }

    /// Whether this encodes a number that is neither an infinity nor a NaN.
    pub open spec fn finite(self) -> bool {
        self.magnitude() < INFINITY_BITS
    }

    /// Where the number stands on the extended real line: numbers compare as
    /// their ranks do. Both zeros have rank 0. The rank of a NaN means nothing.
    pub open spec fn rank(self) -> int {
        if self.negative() {
            -self.magnitude()
        } else {
            self.magnitude()
        }
    }

    /// `self < other` as IEEE 754 orders them: false whenever either is a NaN.
    pub open spec fn less(self, other: Real) -> bool {
        !self.nan() && !other.nan() && self.rank() < other.rank()
    }

    /// `self` is `other` unchanged, or a finite real that is not greater than
    /// `other`. This is how the sum of squares of a run stands to any earlier
    /// one: it only ever changes to a finite value that is not greater.
    pub open spec fn no_worse_than(self, other: Real) -> bool {
        self == other || (self.finite() && !other.less(self))
    }

    /// The real with the given encoding.
    pub fn from_bits(bits: u64) -> (r: Real)
        ensures
            r.bits == bits,
    {
        Real { bits }
    }

    /// The encoding of this real.
    pub fn to_bits(&self) -> (bits: u64)
        ensures
            bits == self.bits,
    {
        self.bits
    }

    fn magnitude_bits(&self) -> (m: u64)
        ensures
            m == self.magnitude(),
    {
        if self.bits >= SIGN_BIT {
            self.bits - SIGN_BIT
        } else {
            self.bits
        }
    }

    /// Whether this is neither an infinity nor a NaN.
    pub fn is_finite(&self) -> (r: bool)
        ensures
            r == self.finite(),
    {
        self.magnitude_bits() < INFINITY_BITS
    }

    /// Whether `self < other`. A NaN is less than nothing and nothing is less
    /// than it; the two zeros are equal.
    pub fn lt(&self, other: &Real) -> (r: bool)
        ensures
            r == self.less(*other),
    {
        let a: u64 = self.magnitude_bits();
        let b: u64 = other.magnitude_bits();
        if a > INFINITY_BITS || b > INFINITY_BITS {
            false
        } else if self.bits >= SIGN_BIT {
            if other.bits >= SIGN_BIT {
                a > b
            } else {
                a != 0 || b != 0
            }
        } else {
            other.bits < SIGN_BIT && a < b
        }
    }

    /// Whether `self > other`, which is `other < self`.
    pub fn gt(&self, other: &Real) -> (r: bool)
        ensures
            r == other.less(*self),
    {
        other.lt(self)
    }
}

/// If `a` is no worse than `b` and `b` no worse than `c`, then `a` is no
/// worse than `c`, also where `c` is a NaN or an infinity.
pub proof fn no_worse_is_transitive(a: Real, b: Real, c: Real)
    requires
        a.no_worse_than(b),
        b.no_worse_than(c),
    ensures
        a.no_worse_than(c),
{
}

} // verus!
