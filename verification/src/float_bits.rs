//! Single-precision numbers as bit patterns, with the comparisons that IEEE 754
//! defines on them.

use vstd::prelude::*;

verus! {

/// The number that sets the sign bit of a pattern.
pub const SIGN_BIT: u32 = 0x8000_0000;

/// The magnitude of infinity; every larger magnitude is a NaN.
pub const INFINITY_MAGNITUDE: u32 = 0x7f80_0000;

/// Positive zero.
pub const ZERO: u32 = 0x0000_0000;

/// 1.0
pub const ONE: u32 = 0x3f80_0000;

/// A single-precision number, held by its IEEE 754 bit pattern.
///
/// The library only stores, copies and compares such numbers; arithmetic on them
/// belongs to its callers.
#[derive(Clone, Copy, Debug, PartialEq, Eq, Structural)]
pub struct FloatBits {
    pub bits: u32,
}

impl FloatBits {
    /// The pattern without its sign bit.
    pub open spec fn magnitude(self) -> int {
        if self.bits >= SIGN_BIT {
            self.bits - SIGN_BIT
        } else {
            self.bits as int
        }
    }

    /// Whether the pattern is one of the NaNs.
    pub open spec fn nan(self) -> bool {
        self.magnitude() > INFINITY_MAGNITUDE
    }

    /// An integer that orders the patterns of numbers as their values are ordered;
    /// both zeros map to 0.
    pub open spec fn rank(self) -> int {
        if self.bits >= SIGN_BIT {
            -self.magnitude()
        } else {
            self.magnitude()
        }
    }

    /// `self < other` as numbers: false where either is a NaN.
    pub open spec fn lt(self, other: FloatBits) -> bool {
        !self.nan() && !other.nan() && self.rank() < other.rank()
    }

    /// `self <= other` as numbers: false where either is a NaN.
    pub open spec fn le(self, other: FloatBits) -> bool {
        !self.nan() && !other.nan() && self.rank() <= other.rank()
    }

    /// The position of the pattern in the total order of IEEE 754: negative NaNs,
    /// negative numbers, negative zero, zero, positive numbers, positive NaNs.
    pub open spec fn total_rank(self) -> int {
        if self.bits >= SIGN_BIT {
            -1 - self.magnitude()
        } else {
            self.magnitude()
        }
    }

    /// The number moved into `low..=high`; a NaN stays as it is.
    pub open spec fn clamped(self, low: FloatBits, high: FloatBits) -> FloatBits {
        if self.lt(low) {
            low
        } else if high.lt(self) {
            high
        } else {
            self
        }
    }

    /// Wraps a pattern.
    pub fn new(bits: u32) -> (number: FloatBits)
        ensures
            number.bits == bits,
    {
        FloatBits { bits }
    }

    /// Whether the pattern is a NaN.
    pub fn is_nan(self) -> (answer: bool)
        ensures
            answer == self.nan(),
    {
        let magnitude: u32 = if self.bits >= SIGN_BIT { self.bits - SIGN_BIT } else { self.bits };
        magnitude > INFINITY_MAGNITUDE
    }

    fn signed_rank(self) -> (rank: i64)
        ensures
            rank == self.rank(),
    {
        if self.bits >= SIGN_BIT {
            -((self.bits - SIGN_BIT) as i64)
        } else {
            self.bits as i64
        }
    }

    /// `self < other` as numbers.
    pub fn less(self, other: FloatBits) -> (answer: bool)
        ensures
            answer == self.lt(other),
    {
        !self.is_nan() && !other.is_nan() && self.signed_rank() < other.signed_rank()
    }

    /// `self >= other` as numbers.
    pub fn at_least(self, other: FloatBits) -> (answer: bool)
        ensures
            answer == other.le(self),
    {
        !self.is_nan() && !other.is_nan() && self.signed_rank() >= other.signed_rank()
    }

    /// The place of the pattern in the total order.
    pub fn total_order(self) -> (place: i64)
        ensures
            place == self.total_rank(),
    {
        if self.bits >= SIGN_BIT {
            -1 - ((self.bits - SIGN_BIT) as i64)
        } else {
            self.bits as i64
        }
    }

    /// Moves the number into `low..=high`, as long as it is a number at all.
    pub fn clamp_to(self, low: FloatBits, high: FloatBits) -> (number: FloatBits)
        ensures
            number == self.clamped(low, high),
    {
        if self.less(low) {
            low
        } else if high.less(self) {
            high
        } else {
            self
        }
    }
}

/// A clamped number lies between its bounds, a number that lay there is left alone,
/// and a NaN passes through.
pub proof fn clamped_lies_between(x: FloatBits, low: FloatBits, high: FloatBits)
    requires
        low.le(high),
    ensures
        !x.nan() ==> low.le(x.clamped(low, high)) && x.clamped(low, high).le(high),
        low.le(x) && x.le(high) ==> x.clamped(low, high) == x,
        x.nan() ==> x.clamped(low, high) == x,
{
}

/// The total order extends the numeric one.
pub proof fn total_order_extends_numeric_order(a: FloatBits, b: FloatBits)
    requires
        a.lt(b),
    ensures
        a.total_rank() < b.total_rank(),
{
}

/// The total order tells any two different patterns apart.
pub proof fn total_order_is_total(a: FloatBits, b: FloatBits)
    ensures
        a.total_rank() == b.total_rank() <==> a == b,
{
}

} // verus!
