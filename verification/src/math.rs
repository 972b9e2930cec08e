//! Three-component vectors and quaternions as records of scalars.

use crate::scalar::{Scalar, ONE_BITS, SIGN_BIT, ZERO_BITS};
use vstd::prelude::*;

verus! {

/// A vector of three scalars.
#[derive(Debug, Copy, Clone, PartialEq, Eq, Structural)]
pub struct Float3 {
    pub x: Scalar,
    pub y: Scalar,
    pub z: Scalar,
}

impl Float3 {
    /// The vector with every component negated.
    pub open spec fn spec_neg(self) -> Float3 {
        Float3 { x: self.x.spec_neg(), y: self.y.spec_neg(), z: self.z.spec_neg() }
    }

    /// The vector (0, 0, 0).
    pub open spec fn spec_zero() -> Float3 {
        Float3 {
            x: Scalar { bits: ZERO_BITS },
            y: Scalar { bits: ZERO_BITS },
            z: Scalar { bits: ZERO_BITS },
        }
    }

    /// The vector (0, 1, 0).
    pub open spec fn spec_up() -> Float3 {
        Float3 {
            x: Scalar { bits: ZERO_BITS },
            y: Scalar { bits: ONE_BITS },
            z: Scalar { bits: ZERO_BITS },
        }
    }

    /// The vector (0, -1, 0).
    pub open spec fn spec_down() -> Float3 {
        Float3 {
            x: Scalar { bits: ZERO_BITS },
            y: Scalar { bits: (ONE_BITS + SIGN_BIT) as u32 },
            z: Scalar { bits: ZERO_BITS },
        }
    }

    /// The vector (1, 0, 0).
    pub open spec fn spec_right() -> Float3 {
        Float3 {
            x: Scalar { bits: ONE_BITS },
            y: Scalar { bits: ZERO_BITS },
            z: Scalar { bits: ZERO_BITS },
        }
    }

    /// The vector (0, 0, -1).
    pub open spec fn spec_back() -> Float3 {
        Float3 {
            x: Scalar { bits: ZERO_BITS },
            y: Scalar { bits: ZERO_BITS },
            z: Scalar { bits: (ONE_BITS + SIGN_BIT) as u32 },
        }
    }

    pub fn new(x: Scalar, y: Scalar, z: Scalar) -> (v: Float3)
        ensures
            v == (Float3 { x, y, z }),
    {
        Float3 { x, y, z }
    }

    pub fn neg(self) -> (v: Float3)
        ensures
            v == self.spec_neg(),
    {
        Float3 { x: self.x.neg(), y: self.y.neg(), z: self.z.neg() }
    }

    pub fn zero() -> (v: Float3)
        ensures
            v == Float3::spec_zero(),
    {
        let o = Scalar::from_bits(ZERO_BITS);
        Float3 { x: o, y: o, z: o }
    }

    pub fn up() -> (v: Float3)
        ensures
            v == Float3::spec_up(),
    {
        let o = Scalar::from_bits(ZERO_BITS);
        Float3 { x: o, y: Scalar::from_bits(ONE_BITS), z: o }
    }

    pub fn down() -> (v: Float3)
        ensures
            v == Float3::spec_down(),
    {
        let o = Scalar::from_bits(ZERO_BITS);
        Float3 { x: o, y: Scalar::from_bits(ONE_BITS).neg(), z: o }
    }

    pub fn right() -> (v: Float3)
        ensures
            v == Float3::spec_right(),
    {
        let o = Scalar::from_bits(ZERO_BITS);
        Float3 { x: Scalar::from_bits(ONE_BITS), y: o, z: o }
    }

    pub fn back() -> (v: Float3)
        ensures
            v == Float3::spec_back(),
    {
        let o = Scalar::from_bits(ZERO_BITS);
        Float3 { x: o, y: o, z: Scalar::from_bits(ONE_BITS).neg() }
    }
}

/// Negating a vector twice gives it back, bit for bit.
pub proof fn lemma_float3_neg_involution(v: Float3)
    ensures
        v.spec_neg().spec_neg() == v,
{
}

/// A quaternion (x, y, z, w), w being the scalar part.
#[derive(Debug, Copy, Clone, PartialEq, Eq, Structural)]
pub struct Quaternion {
    pub x: Scalar,
    pub y: Scalar,
    pub z: Scalar,
    pub w: Scalar,
}

impl Quaternion {
    /// The rotation that leaves every vector in place: (0, 0, 0, 1).
    pub open spec fn spec_identity() -> Quaternion {
        Quaternion {
            x: Scalar { bits: ZERO_BITS },
            y: Scalar { bits: ZERO_BITS },
            z: Scalar { bits: ZERO_BITS },
            w: Scalar { bits: ONE_BITS },
        }
    }

    pub fn new(x: Scalar, y: Scalar, z: Scalar, w: Scalar) -> (q: Quaternion)
        ensures
            q == (Quaternion { x, y, z, w }),
    {
        Quaternion { x, y, z, w }
    }

    pub fn identity() -> (q: Quaternion)
        ensures
            q == Quaternion::spec_identity(),
    {
        let o = Scalar::from_bits(ZERO_BITS);
        Quaternion { x: o, y: o, z: o, w: Scalar::from_bits(ONE_BITS) }
    }
}

} // verus!
