//! What the bridge builder decides without arithmetic: whether there is a
//! gap to bridge, how far the control points may be pushed out, and the
//! cursor that walks the sampled curve.

use crate::path::PathCursor;
use crate::scalar::{Scalar, ONE_BITS};
use crate::sim::EPSILON;
use vstd::prelude::*;

verus! {

/// The encoding of the smallest weight of a control point, 1e-3.
pub const MIN_WEIGHT: u32 = 0x3a83_126f;

/// The encoding of the largest weight of a control point, 1.
pub const MAX_WEIGHT: u32 = ONE_BITS;

/// The weight of a control point, held between 1e-3 and 1.
pub open spec fn spec_clamp_weight(weight: Scalar) -> Scalar {
    weight.spec_clamp(Scalar { bits: MIN_WEIGHT }, Scalar { bits: MAX_WEIGHT })
}

/// Whether two anchors lie so close that there is nothing to bridge: the
/// distance between their heart positions is under the tolerance.
pub open spec fn spec_is_degenerate(length: Scalar) -> bool {
    length.spec_lt(Scalar { bits: EPSILON })
}

pub fn clamp_weight(weight: Scalar) -> (w: Scalar)
    ensures
        w == spec_clamp_weight(weight),
{
    weight.clamp(Scalar::from_bits(MIN_WEIGHT), Scalar::from_bits(MAX_WEIGHT))
}

pub fn is_degenerate(length: Scalar) -> (r: bool)
    ensures
        r == spec_is_degenerate(length),
{
    length.lt(Scalar::from_bits(EPSILON))
}

/// The cursor that walks the whole sampled curve, given the cumulative
/// chord length at each of its samples; nothing where the curve has fewer
/// than two samples, in which case the section is its anchor alone.
pub fn cursor(lengths: Vec<Scalar>) -> (cursor: Option<PathCursor>)
    ensures
        cursor.is_some() == (lengths@.len() >= 2),
        cursor matches Some(c) ==> {
            &&& c.wf()
            &&& c.spec_arcs() == lengths@
            &&& c.spec_start() == 0
            &&& c.spec_end() == lengths@.len() - 1
            &&& c.spec_offset() == 0
        },
{
    let n = lengths.len();
    if n < 2 {
        None
    } else {
        PathCursor::new(lengths, 0, n - 1)
    }
}

/// A clamped weight lies between 1e-3 and 1 unless the weight is NaN, and
/// a weight in that interval is left as it is. Two anchors at the same
/// place are degenerate.
pub proof fn lemma_weights(weight: Scalar)
    ensures
        !weight.spec_is_nan() ==> (Scalar { bits: MIN_WEIGHT }).spec_le(spec_clamp_weight(weight))
            && spec_clamp_weight(weight).spec_le(Scalar { bits: MAX_WEIGHT }),
        (Scalar { bits: MIN_WEIGHT }).spec_le(weight) && weight.spec_le(
            Scalar { bits: MAX_WEIGHT },
        ) ==> spec_clamp_weight(weight) == weight,
        spec_is_degenerate(Scalar { bits: 0 }),
{
}

} // verus!
