//! The orientation frame of a sample: direction, normal and lateral.

use crate::math::Float3;
use crate::scalar::{Scalar, ZERO_BITS};
use vstd::prelude::*;

verus! {

/// Three vectors that give a sample its orientation: `direction` along the
/// track, `normal` from seat to head, `lateral` to the rider's right.
#[derive(Debug, Copy, Clone, PartialEq, Eq, Structural)]
pub struct Frame {
    pub direction: Float3,
    pub normal: Float3,
    pub lateral: Float3,
}

impl Frame {
    /// The frame of a track that runs level towards -z, with the normal
    /// pointing down: direction (0, 0, -1), normal (0, -1, 0), lateral
    /// (1, 0, 0).
    pub open spec fn spec_default() -> Frame {
        Frame {
            direction: Float3::spec_back(),
            normal: Float3::spec_down(),
            lateral: Float3::spec_right(),
        }
    }

    /// The frame seen when the track is travelled the other way: direction
    /// and lateral change sign, the normal stays.
    pub open spec fn spec_reversed(self) -> Frame {
        Frame {
            direction: self.direction.spec_neg(),
            normal: self.normal,
            lateral: self.lateral.spec_neg(),
        }
    }

    /// The vertical against which pitch is measured: world up, and world
    /// down when the normal points below the horizon, so that pitch is
    /// taken against the horizon even when the frame is inverted.
    pub open spec fn spec_pitch_up(self) -> Float3 {
        if self.normal.y.spec_lt(Scalar { bits: ZERO_BITS }) {
            Float3::spec_up().spec_neg()
        } else {
            Float3::spec_up()
        }
    }

    pub fn new(direction: Float3, normal: Float3, lateral: Float3) -> (f: Frame)
        ensures
            f == (Frame { direction, normal, lateral }),
    {
        Frame { direction, normal, lateral }
    }

    pub fn pitch_up(self) -> (up: Float3)
        ensures
            up == self.spec_pitch_up(),
    {
        if self.normal.y.lt(Scalar::from_bits(ZERO_BITS)) {
            Float3::up().neg()
        } else {
            Float3::up()
        }
    }

    pub fn reversed(self) -> (f: Frame)
        ensures
            f == self.spec_reversed(),
    {
        Frame {
            direction: self.direction.neg(),
            normal: self.normal,
            lateral: self.lateral.neg(),
        }
    }
}

impl Default for Frame {
    fn default() -> (f: Frame)
        ensures
            f == Frame::spec_default(),
    {
        Frame { direction: Float3::back(), normal: Float3::down(), lateral: Float3::right() }
    }
}

/// Reversing a frame twice gives it back, bit for bit.
pub proof fn lemma_frame_reversed_involution(f: Frame)
    ensures
        f.spec_reversed().spec_reversed() == f,
{
}

} // verus!
