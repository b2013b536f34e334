//! A binary32 scalar, carried by its exact bit pattern.
//!
//! The verified core cannot compute with floating-point arithmetic, so
//! continuous values are held as their IEEE 754 binary32 bit patterns. What
//! this module does define — sign, negation, the ordering, and the
//! NaN-discarding minimum and maximum — are bit-level operations whose
//! behaviour on every pattern is stated exactly and proved. Arithmetic on
//! these values (sums, products, square roots, trigonometry) is left to the
//! surrounding unverified code, which converts to and from machine floats at
//! the boundary.

use vstd::prelude::*;

verus! {

/// The bit pattern of positive zero.
pub const SCALAR_ZERO_BITS: u32 = 0;

/// The bit pattern of positive one.
pub const SCALAR_ONE_BITS: u32 = 0x3F80_0000;

/// The bit pattern of negative one.
pub const SCALAR_NEG_ONE_BITS: u32 = 0xBF80_0000;

/// The bit pattern of positive one half.
pub const SCALAR_HALF_BITS: u32 = 0x3F00_0000;

/// The bit pattern of negative one half.
pub const SCALAR_NEG_HALF_BITS: u32 = 0xBF00_0000;

/// The bit pattern of half the square root of two, the nearest binary32 value
/// to it.
pub const SCALAR_HALF_SQRT2_BITS: u32 = 0x3F35_04F3;

/// The bit pattern of the negation of half the square root of two.
pub const SCALAR_NEG_HALF_SQRT2_BITS: u32 = 0xBF35_04F3;

/// The bit pattern of positive infinity.
pub const SCALAR_INFINITY_BITS: u32 = 0x7F80_0000;

/// The bit pattern of negative infinity.
pub const SCALAR_NEG_INFINITY_BITS: u32 = 0xFF80_0000;

/// The sign bit of a binary32 pattern, as an added offset.
pub const SCALAR_SIGN_BIT: u32 = 0x8000_0000;

/// A binary32 value, identified by its bit pattern: one sign bit above 31
/// bits of magnitude (biased exponent and mantissa).
///
/// Equality of `Scalar` values is equality of bit patterns. This is finer
/// than the equality of the values they denote: the two zeros are distinct
/// patterns, and patterns whose magnitude exceeds that of infinity denote
/// no number at all (NaN). The ordering of the denoted values is
/// [`Scalar::le_spec`].
#[derive(Debug, Clone, Copy, PartialEq, Eq, Structural, Hash)]
pub struct Scalar {
    /// The IEEE 754 binary32 bit pattern.
    pub bits: u32,
}

impl Scalar {
    /// Whether the sign bit is set: the value denoted is negative (or the
    /// negative zero, or a NaN with the sign bit set).
    pub open spec fn sign_spec(self) -> bool {
        self.bits >= SCALAR_SIGN_BIT
    }

    /// The bit pattern without its sign bit: the magnitude of the value.
    pub open spec fn magnitude_spec(self) -> int {
        if self.sign_spec() {
            self.bits - SCALAR_SIGN_BIT
        } else {
            self.bits as int
        }
    }

    /// Whether this pattern denotes no number: its magnitude exceeds that of
    /// infinity.
    pub open spec fn is_nan_spec(self) -> bool {
        self.magnitude_spec() > SCALAR_INFINITY_BITS
    }

    /// The ordering key of the denoted value: for patterns that denote
    /// numbers, the key order is exactly the numeric order, and the two
    /// zeros share the key 0. This rests on the design of binary32: among
    /// non-negative patterns, the numeric order is the pattern order.
    pub open spec fn key_spec(self) -> int {
        if self.sign_spec() {
            -self.magnitude_spec()
        } else {
            self.magnitude_spec()
        }
    }

    /// The ordering of denoted values: true when both patterns denote
    /// numbers and the first is at most the second. A NaN compares below
    /// nothing, as machine comparison has it.
    pub open spec fn le_spec(self, other: Scalar) -> bool {
        !self.is_nan_spec() && !other.is_nan_spec() && self.key_spec() <= other.key_spec()
    }

    /// The negated pattern: the same magnitude under the opposite sign.
    pub open spec fn neg_spec(self) -> Scalar {
        if self.sign_spec() {
            Scalar { bits: (self.bits - SCALAR_SIGN_BIT) as u32 }
        } else {
            Scalar { bits: (self.bits + SCALAR_SIGN_BIT) as u32 }
        }
    }

    /// The smaller of two values. A NaN is discarded in favour of the other
    /// operand; when the two values compare equal (in particular for the two
    /// zeros), the left operand is kept.
    pub open spec fn min_spec(self, other: Scalar) -> Scalar {
        if self.is_nan_spec() {
            other
        } else if other.is_nan_spec() {
            self
        } else if other.key_spec() < self.key_spec() {
            other
        } else {
            self
        }
    }

    /// The greater of two values, under the same rules as
    /// [`Scalar::min_spec`].
    pub open spec fn max_spec(self, other: Scalar) -> Scalar {
        if self.is_nan_spec() {
            other
        } else if other.is_nan_spec() {
            self
        } else if other.key_spec() > self.key_spec() {
            other
        } else {
            self
        }
    }

    /// The zero scalar.
    pub fn zero() -> (r: Scalar)
        ensures
            r.bits == SCALAR_ZERO_BITS,
    {
        Scalar { bits: SCALAR_ZERO_BITS }
    }

    /// The scalar one.
    pub fn one() -> (r: Scalar)
        ensures
            r.bits == SCALAR_ONE_BITS,
    {
        Scalar { bits: SCALAR_ONE_BITS }
    }

    /// The scalar negative one.
    pub fn neg_one() -> (r: Scalar)
        ensures
            r.bits == SCALAR_NEG_ONE_BITS,
    {
        Scalar { bits: SCALAR_NEG_ONE_BITS }
    }

    /// Positive infinity.
    pub fn infinity() -> (r: Scalar)
        ensures
            r.bits == SCALAR_INFINITY_BITS,
    {
        Scalar { bits: SCALAR_INFINITY_BITS }
    }

    /// Negative infinity.
    pub fn neg_infinity() -> (r: Scalar)
        ensures
            r.bits == SCALAR_NEG_INFINITY_BITS,
    {
        Scalar { bits: SCALAR_NEG_INFINITY_BITS }
    }

    /// Determines whether this pattern denotes no number.
    pub fn is_nan(&self) -> (r: bool)
        ensures
            r == self.is_nan_spec(),
    {
        let magnitude: u32 = if self.bits >= SCALAR_SIGN_BIT {
            self.bits - SCALAR_SIGN_BIT
        } else {
            self.bits
        };
        magnitude > SCALAR_INFINITY_BITS
    }

    /// Negates this value by flipping its sign bit, which is exactly how
    /// machine negation acts on every binary32 pattern.
    pub fn neg(self) -> (r: Scalar)
        ensures
            r == self.neg_spec(),
    {
        if self.bits >= SCALAR_SIGN_BIT {
            Scalar { bits: self.bits - SCALAR_SIGN_BIT }
        } else {
            Scalar { bits: self.bits + SCALAR_SIGN_BIT }
        }
    }

    /// Determines whether this value is at most the other, under the machine
    /// ordering of the denoted values: false when either is NaN, and the two
    /// zeros are equal.
    pub fn le(self, other: Scalar) -> (r: bool)
        ensures
            r == self.le_spec(other),
    {
        if self.is_nan() || other.is_nan() {
            return false;
        }
        let self_negative = self.bits >= SCALAR_SIGN_BIT;
        let other_negative = other.bits >= SCALAR_SIGN_BIT;
        if self_negative {
            if other_negative {
                // Both keys are negated magnitudes: the order reverses.
                self.bits >= other.bits
            } else {
                // A non-positive key is at most a non-negative one.
                true
            }
        } else {
            if other_negative {
                // Only possible when both magnitudes are zero.
                self.bits == 0 && other.bits == SCALAR_SIGN_BIT
            } else {
                // Both keys are the magnitudes themselves.
                self.bits <= other.bits
            }
        }
    }

    /// The smaller of two values, discarding a NaN operand and keeping the
    /// left operand on ties.
    pub fn min(self, other: Scalar) -> (r: Scalar)
        ensures
            r == self.min_spec(other),
    {
        if self.is_nan() {
            other
        } else if other.is_nan() {
            self
        } else if self.le(other) {
            self
        } else {
            other
        }
    }

    /// The greater of two values, discarding a NaN operand and keeping the
    /// left operand on ties.
    pub fn max(self, other: Scalar) -> (r: Scalar)
        ensures
            r == self.max_spec(other),
    {
        if self.is_nan() {
            other
        } else if other.is_nan() {
            self
        } else if other.le(self) {
            self
        } else {
            other
        }
    }
}

} // verus!
