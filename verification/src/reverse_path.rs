//! Reversal of a path: the same samples, met in the opposite order and
//! facing the other way.

use crate::point::Point;
use vstd::prelude::*;

verus! {

/// The reversed path: sample `i` of the result is sample `len - 1 - i` of
/// the path, itself reversed.
pub open spec fn spec_build(path: Seq<Point>) -> Seq<Point> {
    Seq::new(path.len(), |i: int| path[path.len() - 1 - i].spec_reversed())
}

/// Reverses a path. Every sample keeps its position, normal, arc lengths
/// and ride state; its direction, lateral and lateral force change sign.
pub fn build(path: &[Point]) -> (reversed: Vec<Point>)
    ensures
        reversed@ == spec_build(path@),
        reversed@.len() == path@.len(),
{
    let n = path.len();
    let mut out: Vec<Point> = Vec::new();
    let mut i: usize = 0;
    while i < n
        invariant
            n == path@.len(),
            i <= n,
            out@.len() == i,
            forall|k: int| 0 <= k < i ==> out@[k] == #[trigger] path@[n - 1 - k].spec_reversed(),
        decreases n - i,
    {
        let p = path[n - 1 - i].reversed();
        out.push(p);
        i += 1;
    }
    assert(out@ =~= spec_build(path@));
    out
}

/// Reversing a path twice gives the path back, bit for bit.
pub proof fn lemma_build_involution(path: Seq<Point>)
    ensures
        spec_build(spec_build(path)) == path,
{
    assert(spec_build(spec_build(path)) =~= path);
}

/// Reversal keeps the length, swaps the ends and is the sample-wise
/// reversal of the reversed sequence.
pub proof fn lemma_build_shape(path: Seq<Point>)
    ensures
        spec_build(path).len() == path.len(),
        path.len() > 0 ==> spec_build(path).first() == path.last().spec_reversed(),
        path.len() > 0 ==> spec_build(path).last() == path.first().spec_reversed(),
        spec_build(path) == path.reverse().map_values(|p: Point| p.spec_reversed()),
{
    assert(spec_build(path) =~= path.reverse().map_values(|p: Point| p.spec_reversed()));
}

} // verus!
