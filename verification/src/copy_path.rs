//! What the copy-path builder decides without arithmetic: which stretch of
//! the source path is copied, the cursor that walks it, and the bases from
//! which the aligning rotation is made.

use crate::math::Float3;
use crate::path::PathCursor;
use crate::point::Point;
use crate::scalar::{Scalar, ZERO_BITS};
use vstd::prelude::*;

verus! {

/// The first and last sample of the stretch that is copied from a source
/// path of `len` samples, or nothing where fewer than two samples would be
/// left.
///
/// `start` and `end` are the bounds in seconds; `start_sample` and
/// `end_sample` are the same bounds counted in samples, rounded to the
/// nearest. A start at or below zero means the first sample, an end below
/// zero the last one. The start is held within the path, the end between
/// the start and the last sample.
pub open spec fn spec_index_range(
    len: int,
    start: Scalar,
    start_sample: usize,
    end: Scalar,
    end_sample: usize,
) -> Option<(usize, usize)> {
    if len < 2 {
        None
    } else {
        let last = len - 1;
        let zero = Scalar { bits: ZERO_BITS };
        let first: int = if start.spec_le(zero) {
            0
        } else if start_sample > last {
            last
        } else {
            start_sample as int
        };
        let stop: int = if end.spec_lt(zero) {
            last
        } else if end_sample < first {
            first
        } else if end_sample > last {
            last
        } else {
            end_sample as int
        };
        if stop - first < 1 {
            None
        } else {
            Some((first as usize, stop as usize))
        }
    }
}

/// The heart arc of each sample of a path.
pub open spec fn spec_heart_arcs(path: Seq<Point>) -> Seq<Scalar> {
    path.map_values(|p: Point| p.heart_arc)
}

/// The stretch of a source path of `len` samples that is copied.
pub fn index_range(
    len: usize,
    start: Scalar,
    start_sample: usize,
    end: Scalar,
    end_sample: usize,
) -> (range: Option<(usize, usize)>)
    ensures
        range == spec_index_range(len as int, start, start_sample, end, end_sample),
{
    if len < 2 {
        return None;
    }
    let last: usize = len - 1;
    let zero = Scalar::from_bits(ZERO_BITS);
    let first: usize = if start.le(zero) {
        0
    } else if start_sample > last {
        last
    } else {
        start_sample
    };
    let stop: usize = if end.lt(zero) {
        last
    } else if end_sample < first {
        first
    } else if end_sample > last {
        last
    } else {
        end_sample
    };
    if stop - first < 1 {
        None
    } else {
        Some((first, stop))
    }
}

/// The heart arc of each sample of a path, in order.
pub fn heart_arcs(path: &[Point]) -> (arcs: Vec<Scalar>)
    ensures
        arcs@ == spec_heart_arcs(path@),
{
    let n = path.len();
    let mut arcs: Vec<Scalar> = Vec::new();
    let mut i: usize = 0;
    while i < n
        invariant
            n == path@.len(),
            i <= n,
            arcs@.len() == i,
            forall|k: int| 0 <= k < i ==> arcs@[k] == (#[trigger] path@[k]).heart_arc,
        decreases n - i,
    {
        arcs.push(path[i].heart_arc);
        i += 1;
    }
    assert(arcs@ =~= spec_heart_arcs(path@));
    arcs
}

/// The cursor that walks the copied stretch of a source path by heart arc,
/// standing at the start of the stretch; nothing where no stretch is left,
/// in which case the section is its anchor alone.
pub fn cursor(
    source_path: &[Point],
    start: Scalar,
    start_sample: usize,
    end: Scalar,
    end_sample: usize,
) -> (cursor: Option<PathCursor>)
    ensures
        cursor.is_some() == spec_index_range(
            source_path@.len() as int,
            start,
            start_sample,
            end,
            end_sample,
        ).is_some(),
        cursor matches Some(c) ==> {
            let range = spec_index_range(
                source_path@.len() as int,
                start,
                start_sample,
                end,
                end_sample,
            ).unwrap();
            &&& c.wf()
            &&& c.spec_arcs() == spec_heart_arcs(source_path@)
            &&& c.spec_start() == range.0
            &&& c.spec_end() == range.1
            &&& c.spec_offset() == 0
        },
{
    match index_range(source_path.len(), start, start_sample, end, end_sample) {
        None => None,
        Some((first, stop)) => PathCursor::new(heart_arcs(source_path), first, stop),
    }
}

/// A stretch that is copied has at least two samples and lies within the
/// path; it starts at the first sample when the start is at or below zero
/// and ends at the last when the end is below zero.
pub proof fn lemma_index_range_shape(
    len: int,
    start: Scalar,
    start_sample: usize,
    end: Scalar,
    end_sample: usize,
)
    requires
        0 <= len <= usize::MAX,
    ensures
        len < 2 ==> spec_index_range(len, start, start_sample, end, end_sample).is_none(),
        spec_index_range(len, start, start_sample, end, end_sample) matches Some(range) ==> {
            &&& range.0 < range.1 < len
            &&& start.spec_le(Scalar { bits: ZERO_BITS }) ==> range.0 == 0
            &&& end.spec_lt(Scalar { bits: ZERO_BITS }) ==> range.1 == len - 1
            &&& !start.spec_le(Scalar { bits: ZERO_BITS }) && start_sample < len ==> range.0
                == start_sample
            &&& !end.spec_lt(Scalar { bits: ZERO_BITS }) && range.0 <= end_sample < len
                ==> range.1 == end_sample
        },
{
}

/// A three-by-three matrix, held by its columns.
#[derive(Debug, Copy, Clone, PartialEq, Eq, Structural)]
pub struct Matrix3 {
    pub c0: Float3,
    pub c1: Float3,
    pub c2: Float3,
}

impl Matrix3 {
    /// The matrix whose rows are the columns of this one.
    pub open spec fn spec_transpose(self) -> Matrix3 {
        Matrix3 {
            c0: Float3 { x: self.c0.x, y: self.c1.x, z: self.c2.x },
            c1: Float3 { x: self.c0.y, y: self.c1.y, z: self.c2.y },
            c2: Float3 { x: self.c0.z, y: self.c1.z, z: self.c2.z },
        }
    }

    /// The basis of a sample: lateral, normal and direction as columns.
    pub open spec fn spec_basis(p: Point) -> Matrix3 {
        Matrix3 { c0: p.lateral, c1: p.normal, c2: p.direction }
    }

    /// The entry in row `row` of column `col`, both counted from 0.
    pub open spec fn spec_entry(self, row: int, col: int) -> Scalar {
        let column = if col == 0 {
            self.c0
        } else if col == 1 {
            self.c1
        } else {
            self.c2
        };
        if row == 0 {
            column.x
        } else if row == 1 {
            column.y
        } else {
            column.z
        }
    }

    pub fn from_columns(c0: Float3, c1: Float3, c2: Float3) -> (m: Matrix3)
        ensures
            m == (Matrix3 { c0, c1, c2 }),
    {
        Matrix3 { c0, c1, c2 }
    }

    pub fn transpose(&self) -> (m: Matrix3)
        ensures
            m == self.spec_transpose(),
    {
        Matrix3 {
            c0: Float3::new(self.c0.x, self.c1.x, self.c2.x),
            c1: Float3::new(self.c0.y, self.c1.y, self.c2.y),
            c2: Float3::new(self.c0.z, self.c1.z, self.c2.z),
        }
    }

    /// The basis of a sample: lateral, normal and direction as columns.
    pub fn basis(p: &Point) -> (m: Matrix3)
        ensures
            m == Matrix3::spec_basis(*p),
    {
        Matrix3::from_columns(p.lateral, p.normal, p.direction)
    }
}

/// Transposing swaps rows and columns, and doing it twice gives the matrix
/// back.
pub proof fn lemma_transpose(m: Matrix3)
    ensures
        m.spec_transpose().spec_transpose() == m,
        forall|row: int, col: int|
            0 <= row < 3 && 0 <= col < 3 ==> #[trigger] m.spec_transpose().spec_entry(row, col)
                == m.spec_entry(col, row),
{
}

} // verus!
