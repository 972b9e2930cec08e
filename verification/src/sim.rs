//! Simulation constants and the rules that decide, before each step,
//! whether a section goes on and at which velocity.

use crate::scalar::{Scalar, ZERO_BITS};
use vstd::prelude::*;

verus! {

/// The encoding of standard gravity, 9.80665 m/s^2.
pub const G: u32 = 0x411c_e80a;

/// The encoding of the sample rate, 100 samples per second.
pub const HZ: u32 = 0x42c8_0000;

/// The encoding of the step, one over the sample rate.
pub const DT: u32 = 0x3c23_d70a;

/// The encoding of the tolerance below which a length, an angle or a
/// velocity counts as zero: 1.192093e-7.
pub const EPSILON: u32 = 0x3400_0001;

/// The encoding of the stall floor, 1e-3 m/s.
pub const MIN_VELOCITY: u32 = 0x3a83_126f;

/// The encoding of pi.
pub const PI: u32 = 0x4049_0fdb;

/// The most steps one section may take.
pub const MAX_ITERATIONS: usize = 1_000_000;

/// What the rules say about the step that is about to be taken.
#[derive(Debug, Copy, Clone, PartialEq, Eq, Structural)]
pub enum Gate {
    /// The section ends here: the driven velocity is under the floor, or
    /// the train has stalled and does not point downhill.
    Halt,
    /// The velocity is taken from the driven-velocity curve.
    Drive,
    /// The train has stalled pointing downhill: it is put back at the floor.
    Rescue,
    /// The train rolls on at the velocity it has.
    Coast,
}

/// The stall floor as a scalar.
pub open spec fn spec_min_velocity() -> Scalar {
    Scalar { bits: MIN_VELOCITY }
}

/// The rule for one step. A driven section halts when the curve's velocity
/// is under the floor and is driven otherwise. A free section coasts while
/// its velocity is not under the floor; under it, the train is rescued when
/// its pitch is below zero and halts when it is not.
pub open spec fn spec_gate(
    driven: bool,
    driven_velocity: Scalar,
    velocity: Scalar,
    pitch: Scalar,
) -> Gate {
    if driven {
        if driven_velocity.spec_lt(spec_min_velocity()) {
            Gate::Halt
        } else {
            Gate::Drive
        }
    } else if velocity.spec_lt(spec_min_velocity()) {
        if pitch.spec_lt(Scalar { bits: ZERO_BITS }) {
            Gate::Rescue
        } else {
            Gate::Halt
        }
    } else {
        Gate::Coast
    }
}

/// The velocity a step is taken with: the curve's when driven, the floor
/// after a rescue, else the velocity the train has.
pub open spec fn spec_entry_velocity(gate: Gate, driven_velocity: Scalar, velocity: Scalar) -> Scalar {
    match gate {
        Gate::Drive => driven_velocity,
        Gate::Rescue => spec_min_velocity(),
        Gate::Coast => velocity,
        Gate::Halt => velocity,
    }
}

/// A divisor kept away from zero: the tolerance itself where the number's
/// magnitude is under the tolerance, the number otherwise.
pub open spec fn spec_away_from_zero(value: Scalar) -> Scalar {
    if value.spec_abs().spec_lt(Scalar { bits: EPSILON }) {
        Scalar { bits: EPSILON }
    } else {
        value
    }
}

/// Whether an angle already lies between -pi and pi, both included, so
/// that wrapping leaves it as it is.
pub open spec fn spec_in_principal_range(rad: Scalar) -> bool {
    (Scalar { bits: PI }).spec_neg().spec_le(rad) && rad.spec_le(Scalar { bits: PI })
}

pub fn min_velocity() -> (v: Scalar)
    ensures
        v == spec_min_velocity(),
{
    Scalar::from_bits(MIN_VELOCITY)
}

/// Decides the step about to be taken from the section's mode, the value of
/// the driven-velocity curve, and the velocity and pitch of the last sample.
pub fn gate(driven: bool, driven_velocity: Scalar, velocity: Scalar, pitch: Scalar) -> (g: Gate)
    ensures
        g == spec_gate(driven, driven_velocity, velocity, pitch),
{
    let floor = Scalar::from_bits(MIN_VELOCITY);
    if driven {
        if driven_velocity.lt(floor) {
            Gate::Halt
        } else {
            Gate::Drive
        }
    } else if velocity.lt(floor) {
        if pitch.lt(Scalar::from_bits(ZERO_BITS)) {
            Gate::Rescue
        } else {
            Gate::Halt
        }
    } else {
        Gate::Coast
    }
}

/// The velocity that the step is taken with.
pub fn entry_velocity(gate: Gate, driven_velocity: Scalar, velocity: Scalar) -> (v: Scalar)
    ensures
        v == spec_entry_velocity(gate, driven_velocity, velocity),
{
    match gate {
        Gate::Drive => driven_velocity,
        Gate::Rescue => Scalar::from_bits(MIN_VELOCITY),
        Gate::Coast => velocity,
        Gate::Halt => velocity,
    }
}

/// The number to divide by in place of `value`, so that a velocity or a
/// length near zero does not blow the quotient up.
pub fn away_from_zero(value: Scalar) -> (v: Scalar)
    ensures
        v == spec_away_from_zero(value),
{
    let tolerance = Scalar::from_bits(EPSILON);
    if value.abs().lt(tolerance) {
        tolerance
    } else {
        value
    }
}

/// Whether wrapping leaves the angle as it is.
pub fn in_principal_range(rad: Scalar) -> (r: bool)
    ensures
        r == spec_in_principal_range(rad),
{
    let pi = Scalar::from_bits(PI);
    pi.neg().le(rad) && rad.le(pi)
}

/// A divisor kept away from zero is never zero and never under the
/// tolerance in magnitude, and a number at or over the tolerance in
/// magnitude is kept as it is.
pub proof fn lemma_away_from_zero(value: Scalar)
    ensures
        !spec_away_from_zero(value).spec_abs().spec_lt(Scalar { bits: EPSILON }),
        spec_away_from_zero(value).spec_magnitude() != 0,
        value.spec_abs().spec_ge(Scalar { bits: EPSILON }) ==> spec_away_from_zero(value)
            == value,
        value.spec_is_nan() ==> spec_away_from_zero(value) == value,
{
}

/// A free train under the floor halts unless it points downhill, and is
/// rescued exactly when it does; a train at or above the floor coasts.
pub proof fn lemma_gate_free(velocity: Scalar, pitch: Scalar, driven_velocity: Scalar)
    ensures
        velocity.spec_lt(spec_min_velocity()) && pitch.spec_lt(Scalar { bits: ZERO_BITS })
            ==> spec_gate(false, driven_velocity, velocity, pitch) == Gate::Rescue,
        velocity.spec_lt(spec_min_velocity()) && !pitch.spec_lt(Scalar { bits: ZERO_BITS })
            ==> spec_gate(false, driven_velocity, velocity, pitch) == Gate::Halt,
        !velocity.spec_lt(spec_min_velocity()) ==> spec_gate(
            false,
            driven_velocity,
            velocity,
            pitch,
        ) == Gate::Coast,
{
}

/// A driven section halts exactly when the curve's velocity is under the
/// floor, whatever the train's own velocity and pitch.
pub proof fn lemma_gate_driven(velocity: Scalar, pitch: Scalar, driven_velocity: Scalar)
    ensures
        (spec_gate(true, driven_velocity, velocity, pitch) == Gate::Halt)
            == driven_velocity.spec_lt(spec_min_velocity()),
        spec_gate(true, driven_velocity, velocity, pitch) != Gate::Rescue,
        spec_gate(true, driven_velocity, velocity, pitch) != Gate::Coast,
{
}

/// No step is taken with a velocity under the floor: whenever the section
/// goes on, the velocity it goes on with is not below the floor.
pub proof fn lemma_entry_velocity_floor(
    driven: bool,
    driven_velocity: Scalar,
    velocity: Scalar,
    pitch: Scalar,
)
    ensures
        ({
            let g = spec_gate(driven, driven_velocity, velocity, pitch);
            g != Gate::Halt ==> !spec_entry_velocity(g, driven_velocity, velocity).spec_lt(
                spec_min_velocity(),
            )
        }),
{
}

} // verus!
