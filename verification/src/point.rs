//! The per-sample record of a simulated ride.

use crate::frame::Frame;
use crate::math::Float3;
use crate::scalar::{Scalar, ONE_BITS, ZERO_BITS};
use vstd::prelude::*;

verus! {

/// The encoding of 3, the height of the default point's spine.
pub const DEFAULT_HEIGHT_BITS: u32 = 0x4040_0000;

/// The encoding of 10, the default point's velocity.
pub const DEFAULT_VELOCITY_BITS: u32 = 0x4120_0000;

/// The encoding of the default point's energy: half the squared velocity
/// plus gravity times the spine height, rounded as single precision rounds.
pub const DEFAULT_ENERGY_BITS: u32 = 0x429e_d704;

/// The encoding of 1.1, the default heart offset.
pub const DEFAULT_HEART_OFFSET_BITS: u32 = 0x3f8c_cccd;

/// One sample of a ride: where the spine is, how the rider is oriented,
/// and the scalar ride state at that instant.
#[derive(Debug, Copy, Clone, PartialEq, Eq, Structural)]
pub struct Point {
    pub spine_position: Float3,
    pub direction: Float3,
    pub normal: Float3,
    pub lateral: Float3,
    pub velocity: Scalar,
    pub energy: Scalar,
    pub normal_force: Scalar,
    pub lateral_force: Scalar,
    pub heart_arc: Scalar,
    pub spine_arc: Scalar,
    pub spine_advance: Scalar,
    pub friction_origin: Scalar,
    pub roll_speed: Scalar,
    pub heart_offset: Scalar,
    pub friction: Scalar,
    pub resistance: Scalar,
}

impl Point {
    /// The orientation frame of the sample.
    pub open spec fn spec_frame(self) -> Frame {
        Frame { direction: self.direction, normal: self.normal, lateral: self.lateral }
    }

    /// The sample with another start of the friction window.
    pub open spec fn spec_with_friction_origin(self, new_origin: Scalar) -> Point {
        Point { friction_origin: new_origin, ..self }
    }

    /// The sample with another velocity, energy and start of the friction
    /// window.
    pub open spec fn spec_with_velocity_and_energy(
        self,
        new_velocity: Scalar,
        new_energy: Scalar,
        new_friction_origin: Scalar,
    ) -> Point {
        Point {
            velocity: new_velocity,
            energy: new_energy,
            friction_origin: new_friction_origin,
            ..self
        }
    }

    /// The sample with other forces.
    pub open spec fn spec_with_forces(
        self,
        new_normal_force: Scalar,
        new_lateral_force: Scalar,
    ) -> Point {
        Point { normal_force: new_normal_force, lateral_force: new_lateral_force, ..self }
    }

    /// Where the friction window starts once the velocity has been set
    /// anew: at the sample's own heart arc when the window is reset, and
    /// where it started before when it is not.
    pub open spec fn spec_friction_origin_after(self, reset_friction: bool) -> Scalar {
        if reset_friction {
            self.heart_arc
        } else {
            self.friction_origin
        }
    }

    /// The sample as met when the path is travelled the other way:
    /// direction, lateral and lateral force change sign, all else stays.
    pub open spec fn spec_reversed(self) -> Point {
        Point {
            direction: self.direction.spec_neg(),
            lateral: self.lateral.spec_neg(),
            lateral_force: self.lateral_force.spec_neg(),
            ..self
        }
    }

    /// The point a track starts from when nothing else is given: spine at
    /// (0, 3, 0), the default frame, velocity 10, one g of normal force,
    /// heart offset 1.1, no friction and no resistance.
    pub open spec fn spec_default() -> Point {
        let zero = Scalar { bits: ZERO_BITS };
        Point {
            spine_position: Float3 { x: zero, y: Scalar { bits: DEFAULT_HEIGHT_BITS }, z: zero },
            direction: Float3::spec_back(),
            normal: Float3::spec_down(),
            lateral: Float3::spec_right(),
            velocity: Scalar { bits: DEFAULT_VELOCITY_BITS },
            energy: Scalar { bits: DEFAULT_ENERGY_BITS },
            normal_force: Scalar { bits: ONE_BITS },
            lateral_force: zero,
            heart_arc: zero,
            spine_arc: zero,
            spine_advance: zero,
            friction_origin: zero,
            roll_speed: zero,
            heart_offset: Scalar { bits: DEFAULT_HEART_OFFSET_BITS },
            friction: zero,
            resistance: zero,
        }
    }

    pub fn new(
        spine_position: Float3,
        direction: Float3,
        normal: Float3,
        lateral: Float3,
        velocity: Scalar,
        energy: Scalar,
        normal_force: Scalar,
        lateral_force: Scalar,
        heart_arc: Scalar,
        spine_arc: Scalar,
        spine_advance: Scalar,
        friction_origin: Scalar,
        roll_speed: Scalar,
        heart_offset: Scalar,
        friction: Scalar,
        resistance: Scalar,
    ) -> (p: Point)
        ensures
            p == (Point {
                spine_position,
                direction,
                normal,
                lateral,
                velocity,
                energy,
                normal_force,
                lateral_force,
                heart_arc,
                spine_arc,
                spine_advance,
                friction_origin,
                roll_speed,
                heart_offset,
                friction,
                resistance,
            }),
    {
        Point {
            spine_position,
            direction,
            normal,
            lateral,
            velocity,
            energy,
            normal_force,
            lateral_force,
            heart_arc,
            spine_arc,
            spine_advance,
            friction_origin,
            roll_speed,
            heart_offset,
            friction,
            resistance,
        }
    }

    pub fn frame(&self) -> (f: Frame)
        ensures
            f == self.spec_frame(),
    {
        Frame::new(self.direction, self.normal, self.lateral)
    }

    pub fn with_friction_origin(&self, new_origin: Scalar) -> (p: Point)
        ensures
            p == self.spec_with_friction_origin(new_origin),
    {
        Point::new(
            self.spine_position,
            self.direction,
            self.normal,
            self.lateral,
            self.velocity,
            self.energy,
            self.normal_force,
            self.lateral_force,
            self.heart_arc,
            self.spine_arc,
            self.spine_advance,
            new_origin,
            self.roll_speed,
            self.heart_offset,
            self.friction,
            self.resistance,
        )
    }

    pub fn with_velocity_and_energy(
        &self,
        new_velocity: Scalar,
        new_energy: Scalar,
        new_friction_origin: Scalar,
    ) -> (p: Point)
        ensures
            p == self.spec_with_velocity_and_energy(new_velocity, new_energy, new_friction_origin),
    {
        Point::new(
            self.spine_position,
            self.direction,
            self.normal,
            self.lateral,
            new_velocity,
            new_energy,
            self.normal_force,
            self.lateral_force,
            self.heart_arc,
            self.spine_arc,
            self.spine_advance,
            new_friction_origin,
            self.roll_speed,
            self.heart_offset,
            self.friction,
            self.resistance,
        )
    }

    pub fn with_forces(&self, new_normal_force: Scalar, new_lateral_force: Scalar) -> (p: Point)
        ensures
            p == self.spec_with_forces(new_normal_force, new_lateral_force),
    {
        Point::new(
            self.spine_position,
            self.direction,
            self.normal,
            self.lateral,
            self.velocity,
            self.energy,
            new_normal_force,
            new_lateral_force,
            self.heart_arc,
            self.spine_arc,
            self.spine_advance,
            self.friction_origin,
            self.roll_speed,
            self.heart_offset,
            self.friction,
            self.resistance,
        )
    }

    pub fn friction_origin_after(&self, reset_friction: bool) -> (origin: Scalar)
        ensures
            origin == self.spec_friction_origin_after(reset_friction),
    {
        if reset_friction {
            self.heart_arc
        } else {
            self.friction_origin
        }
    }

    pub fn reversed(&self) -> (p: Point)
        ensures
            p == self.spec_reversed(),
    {
        Point::new(
            self.spine_position,
            self.direction.neg(),
            self.normal,
            self.lateral.neg(),
            self.velocity,
            self.energy,
            self.normal_force,
            self.lateral_force.neg(),
            self.heart_arc,
            self.spine_arc,
            self.spine_advance,
            self.friction_origin,
            self.roll_speed,
            self.heart_offset,
            self.friction,
            self.resistance,
        )
    }
}

impl Default for Point {
    fn default() -> (p: Point)
        ensures
            p == Point::spec_default(),
            p.spec_frame() == Frame::spec_default(),
    {
        let zero = Scalar::from_bits(ZERO_BITS);
        Point::new(
            Float3::new(zero, Scalar::from_bits(DEFAULT_HEIGHT_BITS), zero),
            Float3::back(),
            Float3::down(),
            Float3::right(),
            Scalar::from_bits(DEFAULT_VELOCITY_BITS),
            Scalar::from_bits(DEFAULT_ENERGY_BITS),
            Scalar::from_bits(ONE_BITS),
            zero,
            zero,
            zero,
            zero,
            zero,
            zero,
            Scalar::from_bits(DEFAULT_HEART_OFFSET_BITS),
            zero,
            zero,
        )
    }
}

/// Reversing a sample twice gives it back, bit for bit.
pub proof fn lemma_point_reversed_involution(p: Point)
    ensures
        p.spec_reversed().spec_reversed() == p,
{
}

/// Reversing a sample reverses its frame and touches nothing else that the
/// arc lengths or the energy are read from.
pub proof fn lemma_point_reversed_keeps(p: Point)
    ensures
        p.spec_reversed().spec_frame() == p.spec_frame().spec_reversed(),
        p.spec_reversed().spine_position == p.spine_position,
        p.spec_reversed().heart_arc == p.heart_arc,
        p.spec_reversed().spine_arc == p.spine_arc,
        p.spec_reversed().velocity == p.velocity,
        p.spec_reversed().energy == p.energy,
{
}

/// The three replacement operations touch only the fields they name.
pub proof fn lemma_replacements_commute(p: Point, o: Scalar, n: Scalar, l: Scalar)
    ensures
        p.spec_with_friction_origin(o).spec_with_forces(n, l) == p.spec_with_forces(
            n,
            l,
        ).spec_with_friction_origin(o),
        p.spec_with_friction_origin(p.friction_origin) == p,
        p.spec_with_forces(p.normal_force, p.lateral_force) == p,
        p.spec_with_velocity_and_energy(p.velocity, p.energy, o) == p.spec_with_friction_origin(o),
{
}

} // verus!
