//! Single-precision values carried as their IEEE-754 bit patterns.
//!
//! A `Scalar` is the 32-bit encoding of a binary32 number: one sign bit,
//! eight exponent bits, twenty-three fraction bits. Sign handling and
//! ordering are defined on the encoding and need no arithmetic.

use vstd::prelude::*;

verus! {

/// The sign bit of the encoding.
pub const SIGN_BIT: u32 = 0x8000_0000;

/// The encoding of positive infinity; magnitudes above it are NaN.
pub const INFINITY_BITS: u32 = 0x7f80_0000;

/// The encoding of 0.
pub const ZERO_BITS: u32 = 0;

/// The encoding of 1.
pub const ONE_BITS: u32 = 0x3f80_0000;

/// The encoding of the machine epsilon, 2^-23.
pub const MACHINE_EPSILON_BITS: u32 = 0x3400_0000;

/// A binary32 number, held as its bit pattern.
#[derive(Debug, Copy, Clone, PartialEq, Eq, Structural)]
pub struct Scalar {
    pub bits: u32,
}

impl Scalar {
    /// Whether the sign bit is set (true of -0 and of NaN with the bit set).
    pub open spec fn spec_is_sign_negative(self) -> bool {
        self.bits >= SIGN_BIT
    }

    /// The encoding without its sign bit.
    pub open spec fn spec_magnitude(self) -> int {
        if self.bits >= SIGN_BIT {
            self.bits - SIGN_BIT
        } else {
            self.bits as int
        }
    }

    pub open spec fn spec_is_nan(self) -> bool {
        self.spec_magnitude() > INFINITY_BITS
    }

    pub open spec fn spec_is_finite(self) -> bool {
        self.spec_magnitude() < INFINITY_BITS
    }

    /// Position of a number on the number line of encodings: numbers that
    /// are not NaN compare as their ranks do, and both zeros have rank 0.
    pub open spec fn spec_rank(self) -> int {
        if self.bits >= SIGN_BIT {
            -self.spec_magnitude()
        } else {
            self.spec_magnitude()
        }
    }

    /// `self < other` as IEEE-754 orders numbers: false when either is NaN.
    pub open spec fn spec_lt(self, other: Scalar) -> bool {
        !self.spec_is_nan() && !other.spec_is_nan() && self.spec_rank() < other.spec_rank()
    }

    /// `self <= other` as IEEE-754 orders numbers: false when either is NaN.
    pub open spec fn spec_le(self, other: Scalar) -> bool {
        !self.spec_is_nan() && !other.spec_is_nan() && self.spec_rank() <= other.spec_rank()
    }

    /// `self > other` as IEEE-754 orders numbers.
    pub open spec fn spec_gt(self, other: Scalar) -> bool {
        other.spec_lt(self)
    }

    /// `self >= other` as IEEE-754 orders numbers.
    pub open spec fn spec_ge(self, other: Scalar) -> bool {
        other.spec_le(self)
    }

    /// Numeric equality: +0 equals -0, and NaN equals nothing.
    pub open spec fn spec_same_value(self, other: Scalar) -> bool {
        !self.spec_is_nan() && !other.spec_is_nan() && self.spec_rank() == other.spec_rank()
    }

    /// The number with the opposite sign bit.
    pub open spec fn spec_neg(self) -> Scalar {
        if self.bits >= SIGN_BIT {
            Scalar { bits: (self.bits - SIGN_BIT) as u32 }
        } else {
            Scalar { bits: (self.bits + SIGN_BIT) as u32 }
        }
    }

    /// The number with the sign bit cleared.
    pub open spec fn spec_abs(self) -> Scalar {
        Scalar { bits: self.spec_magnitude() as u32 }
    }

    /// `self` limited to the interval from `lo` to `hi`; NaN stays NaN.
    pub open spec fn spec_clamp(self, lo: Scalar, hi: Scalar) -> Scalar {
        if self.spec_lt(lo) {
            lo
        } else if self.spec_gt(hi) {
            hi
        } else {
            self
        }
    }

    pub fn from_bits(bits: u32) -> (s: Scalar)
        ensures
            s.bits == bits,
    {
        Scalar { bits }
    }

    pub fn to_bits(self) -> (bits: u32)
        ensures
            bits == self.bits,
    {
        self.bits
    }

    pub fn is_sign_negative(self) -> (r: bool)
        ensures
            r == self.spec_is_sign_negative(),
    {
        self.bits >= SIGN_BIT
    }

    pub fn is_nan(self) -> (r: bool)
        ensures
            r == self.spec_is_nan(),
    {
        self.abs().bits > INFINITY_BITS
    }

    pub fn is_finite(self) -> (r: bool)
        ensures
            r == self.spec_is_finite(),
    {
        self.abs().bits < INFINITY_BITS
    }

    pub fn neg(self) -> (r: Scalar)
        ensures
            r == self.spec_neg(),
    {
        if self.bits >= SIGN_BIT {
            Scalar { bits: self.bits - SIGN_BIT }
        } else {
            Scalar { bits: self.bits + SIGN_BIT }
        }
    }

    pub fn abs(self) -> (r: Scalar)
        ensures
            r == self.spec_abs(),
    {
        if self.bits >= SIGN_BIT {
            Scalar { bits: self.bits - SIGN_BIT }
        } else {
            self
        }
    }

    pub fn lt(self, other: Scalar) -> (r: bool)
        ensures
            r == self.spec_lt(other),
    {
        if self.is_nan() || other.is_nan() {
            return false;
        }
        let a: u32 = self.bits;
        let b: u32 = other.bits;
        if a >= SIGN_BIT {
            if b >= SIGN_BIT {
                a > b
            } else {
                !(a == SIGN_BIT && b == 0)
            }
        } else {
            b < SIGN_BIT && a < b
        }
    }

    pub fn le(self, other: Scalar) -> (r: bool)
        ensures
            r == self.spec_le(other),
    {
        if self.is_nan() || other.is_nan() {
            return false;
        }
        let a: u32 = self.bits;
        let b: u32 = other.bits;
        if a >= SIGN_BIT {
            b < SIGN_BIT || a >= b
        } else if b >= SIGN_BIT {
            a == 0 && b == SIGN_BIT
        } else {
            a <= b
        }
    }

    pub fn gt(self, other: Scalar) -> (r: bool)
        ensures
            r == self.spec_gt(other),
    {
        other.lt(self)
    }

    pub fn ge(self, other: Scalar) -> (r: bool)
        ensures
            r == self.spec_ge(other),
    {
        other.le(self)
    }

    pub fn same_value(self, other: Scalar) -> (r: bool)
        ensures
            r == self.spec_same_value(other),
    {
        self.le(other) && other.le(self)
    }

    pub fn clamp(self, lo: Scalar, hi: Scalar) -> (r: Scalar)
        requires
            lo.spec_le(hi),
        ensures
            r == self.spec_clamp(lo, hi),
    {
        if self.lt(lo) {
            lo
        } else if self.gt(hi) {
            hi
        } else {
            self
        }
    }
}

/// Negating twice gives the number back, bit for bit.
pub proof fn lemma_neg_involution(a: Scalar)
    ensures
        a.spec_neg().spec_neg() == a,
{
}

/// Negation keeps the magnitude, flips the sign bit and mirrors the rank.
pub proof fn lemma_neg_mirrors(a: Scalar)
    ensures
        a.spec_neg().spec_magnitude() == a.spec_magnitude(),
        a.spec_neg().spec_is_sign_negative() == !a.spec_is_sign_negative(),
        a.spec_neg().spec_rank() == -a.spec_rank(),
        a.spec_neg().spec_is_nan() == a.spec_is_nan(),
        a.spec_neg().spec_abs() == a.spec_abs(),
{
}

/// Negation reverses the order.
pub proof fn lemma_neg_reverses_order(a: Scalar, b: Scalar)
    ensures
        a.spec_lt(b) == b.spec_neg().spec_lt(a.spec_neg()),
        a.spec_le(b) == b.spec_neg().spec_le(a.spec_neg()),
{
    lemma_neg_mirrors(a);
    lemma_neg_mirrors(b);
}

/// The absolute value is never below zero and is its own absolute value.
pub proof fn lemma_abs(a: Scalar)
    ensures
        !a.spec_abs().spec_is_sign_negative(),
        a.spec_abs().spec_abs() == a.spec_abs(),
        a.spec_abs().spec_is_nan() == a.spec_is_nan(),
        !a.spec_is_nan() ==> (Scalar { bits: ZERO_BITS }).spec_le(a.spec_abs()),
        a.spec_abs() == (if a.spec_is_sign_negative() {
            a.spec_neg()
        } else {
            a
        }),
{
}

/// `<` is a strict order on the numbers that are not NaN: irreflexive,
/// asymmetric and transitive, and of two such numbers one is below the
/// other unless they have the same value.
pub proof fn lemma_lt_strict_order(a: Scalar, b: Scalar, c: Scalar)
    ensures
        !a.spec_lt(a),
        a.spec_lt(b) ==> !b.spec_lt(a),
        a.spec_lt(b) && b.spec_lt(c) ==> a.spec_lt(c),
        a.spec_le(b) == (a.spec_lt(b) || a.spec_same_value(b)),
        !a.spec_is_nan() && !b.spec_is_nan() ==> (a.spec_lt(b) || b.spec_lt(a)
            || a.spec_same_value(b)),
        a.spec_is_nan() || b.spec_is_nan() ==> !a.spec_lt(b) && !a.spec_le(b) && !a.spec_gt(b)
            && !a.spec_ge(b) && !a.spec_same_value(b),
{
}

/// Numbers with the same value are the same encoding, except the two zeros.
pub proof fn lemma_same_value_bits(a: Scalar, b: Scalar)
    requires
        a.spec_same_value(b),
    ensures
        a == b || (a.spec_magnitude() == 0 && b.spec_magnitude() == 0),
{
}

/// A clamped number lies in the interval, and a number in the interval is
/// left as it is.
pub proof fn lemma_clamp_bounds(a: Scalar, lo: Scalar, hi: Scalar)
    requires
        lo.spec_le(hi),
    ensures
        !a.spec_is_nan() ==> lo.spec_le(a.spec_clamp(lo, hi)) && a.spec_clamp(lo, hi).spec_le(
            hi,
        ),
        lo.spec_le(a) && a.spec_le(hi) ==> a.spec_clamp(lo, hi) == a,
        a.spec_is_nan() ==> a.spec_clamp(lo, hi) == a,
{
}

} // verus!
