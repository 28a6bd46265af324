//! Single-precision numbers, carried by their bit patterns.
use vstd::prelude::*;

verus! {

/// A single-precision number of the configuration, held by its bit pattern.
///
/// Nothing is computed with it here. What is decided of it is whether it is zero, whether it lies
/// between zero and one, whether it is a given number, and whether two of them are equal.
#[derive(Debug, Clone, Copy)]
pub struct FloatBits {
    pub bits: u32,
}

/// The bit pattern of `-1.0`, the only one of that number.
pub const MINUS_ONE: u32 = 0xBF80_0000;

/// The bit pattern of `1.0`, the only one of that number.
pub const ONE: u32 = 0x3F80_0000;

/// The bit pattern of `4.0`.
pub const FOUR: u32 = 0x4080_0000;

/// The bit pattern of `8.0`.
pub const EIGHT: u32 = 0x4100_0000;

/// The bit pattern of positive infinity; every greater magnitude is not a number.
pub const INFINITE_MAGNITUDE: u32 = 0x7F80_0000;

impl FloatBits {
    /// The pattern without its sign.
    pub open spec fn magnitude(self) -> int {
        self.bits as int % 0x8000_0000
    }

    /// Whether it stands for no number at all.
    pub open spec fn is_nan(self) -> bool {
        self.magnitude() > INFINITE_MAGNITUDE
    }

    /// Whether it is zero, of either sign.
    pub open spec fn is_zero(self) -> bool {
        self.magnitude() == 0
    }

    /// Whether it is a number from zero to one. Positive numbers are ordered as their patterns are.
    pub open spec fn is_unit(self) -> bool {
        self.bits <= ONE || self.is_zero()
    }

    /// Whether two patterns stand for equal numbers: the two zeros are equal, and what is not a
    /// number equals nothing.
    pub open spec fn equals(self, other: FloatBits) -> bool {
        &&& !self.is_nan()
        &&& !other.is_nan()
        &&& self.bits == other.bits || (self.is_zero() && other.is_zero())
    }

    /// Whether it is zero, of either sign.
    pub fn zero(&self) -> (zero: bool)
        ensures
            zero == self.is_zero(),
    {
        self.bits % 0x8000_0000 == 0
    }

    /// Whether it is a number from zero to one.
    pub fn in_unit(&self) -> (unit: bool)
        ensures
            unit == self.is_unit(),
    {
        self.bits <= ONE || self.zero()
    }

    fn nan(&self) -> (nan: bool)
        ensures
            nan == self.is_nan(),
    {
        self.bits % 0x8000_0000 > INFINITE_MAGNITUDE
    }

    /// Whether two patterns stand for equal numbers.
    pub fn equal(&self, other: &FloatBits) -> (equal: bool)
        ensures
            equal == self.equals(*other),
    {
        !self.nan() && !other.nan() && (self.bits == other.bits || (self.zero() && other.zero()))
    }
}

} // verus!
