//! How a geometric section is paced: by the clock, or by the length of heart
//! line it has covered.

use crate::point::Point;
use crate::scalar::Scalar;
use crate::schema::DurationType;
use crate::section::{spec_begin, spec_paced_allowance, Section, Tape};
use vstd::prelude::*;

verus! {

/// Whether a geometric section takes another step. In time mode it does while
/// a step is left. In distance mode the heart arc of its last sample must
/// also fall short of `end_length`, the heart arc at which it is to end.
pub open spec fn spec_goes_on(tape: Tape, duration_type: DurationType, end_length: Scalar) -> bool {
    tape.left > 0 && (duration_type == DurationType::Time || tape.samples.last().heart_arc.spec_lt(
        end_length,
    ))
}

/// Whether the section takes another step.
pub fn goes_on(section: &Section, duration_type: DurationType, end_length: Scalar) -> (b: bool)
    requires
        section.wf(),
    ensures
        b == spec_goes_on(section@, duration_type, end_length),
{
    match duration_type {
        DurationType::Time => section.may_step(),
        DurationType::Distance => section.goes_on(section.state().heart_arc, end_length),
    }
}

/// A section of no duration is its anchor alone: in time mode no step is
/// allowed when no sample or one sample is asked for, and in distance mode
/// no step is taken when the section is to end where its anchor stands.
pub proof fn lemma_no_duration(anchor: Point, sample_count: usize, end_length: Scalar)
    ensures
        sample_count <= 1 ==> !spec_goes_on(
            spec_begin(anchor, spec_paced_allowance(DurationType::Time, sample_count)),
            DurationType::Time,
            end_length,
        ),
        anchor.heart_arc.spec_same_value(end_length) || anchor.heart_arc.spec_is_nan()
            || end_length.spec_is_nan() ==> !spec_goes_on(
            spec_begin(anchor, spec_paced_allowance(DurationType::Distance, sample_count)),
            DurationType::Distance,
            end_length,
        ),
{
}

} // verus!
