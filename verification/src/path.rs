//! The cursor with which a builder walks a sampled path by arc length.
//!
//! The path is given by the cumulative arc length at each of its samples.
//! Asked for a distance, the cursor names the two neighbouring samples
//! between which that distance falls. It only ever moves forward, so a
//! walk along the whole path looks at each sample once.

use crate::scalar::Scalar;
use vstd::prelude::*;

verus! {

/// Where a distance falls on the path.
#[derive(Debug, Copy, Clone, PartialEq, Eq, Structural)]
pub enum Bracket {
    /// At or past the last sample of the range.
    End,
    /// Between two neighbouring samples, given by their positions in the
    /// path.
    Between { lower: usize, upper: usize },
}

/// The first position `i` with `from <= i < end` whose upper neighbour lies
/// at or past the distance, or `end` where there is none.
pub open spec fn spec_first_reaching(arcs: Seq<Scalar>, from: int, end: int, distance: Scalar) -> int
    decreases end - from,
{
    if from >= end {
        end
    } else if arcs[from + 1].spec_ge(distance) {
        from
    } else {
        spec_first_reaching(arcs, from + 1, end, distance)
    }
}

/// The offset of the cursor after it was asked for a distance: the end of
/// the range when the distance is at or past it; else the first position
/// from the cursor on whose upper neighbour reaches the distance; and
/// where there is none, the offset it had.
pub open spec fn spec_seek_offset(
    arcs: Seq<Scalar>,
    start: int,
    end: int,
    offset: int,
    distance: Scalar,
) -> int {
    if distance.spec_ge(arcs[end]) {
        end - start
    } else {
        let found = spec_first_reaching(arcs, start + offset, end, distance);
        if found < end {
            found - start
        } else {
            offset
        }
    }
}

/// The answer of the cursor when asked for a distance: the end when the
/// distance is at or past the end of the range or the cursor stands there;
/// else the cursor's position and the one after it.
pub open spec fn spec_seek_bracket(
    arcs: Seq<Scalar>,
    start: int,
    end: int,
    offset: int,
    distance: Scalar,
) -> Bracket {
    let at = start + spec_seek_offset(arcs, start, end, offset, distance);
    if distance.spec_ge(arcs[end]) || at >= end {
        Bracket::End
    } else {
        Bracket::Between { lower: at as usize, upper: (at + 1) as usize }
    }
}

/// A position on a path, within a range of its samples.
pub struct PathCursor {
    arcs: Vec<Scalar>,
    start: usize,
    end: usize,
    offset: usize,
}

impl PathCursor {
    /// What every cursor made by `new` satisfies: its range lies within the
    /// path and it stands within its range.
    pub closed spec fn wf(&self) -> bool {
        &&& self.start <= self.end < self.arcs@.len()
        &&& self.start + self.offset <= self.end
    }

    /// The cumulative arc length at each sample of the path.
    pub closed spec fn spec_arcs(&self) -> Seq<Scalar> {
        self.arcs@
    }

    /// The position of the first sample of the range.
    pub closed spec fn spec_start(&self) -> int {
        self.start as int
    }

    /// The position of the last sample of the range.
    pub closed spec fn spec_end(&self) -> int {
        self.end as int
    }

    /// How far the cursor stands from the start of its range.
    pub closed spec fn spec_offset(&self) -> int {
        self.offset as int
    }

    /// A cursor at the start of the range from sample `start` to sample
    /// `end` of the path, or nothing where that is no range of the path.
    pub fn new(arcs: Vec<Scalar>, start: usize, end: usize) -> (cursor: Option<PathCursor>)
        ensures
            cursor.is_some() == (start <= end < arcs@.len()),
            cursor matches Some(c) ==> {
                &&& c.wf()
                &&& c.spec_arcs() == arcs@
                &&& c.spec_start() == start
                &&& c.spec_end() == end
                &&& c.spec_offset() == 0
            },
    {
        if start <= end && end < arcs.len() {
            Some(PathCursor { arcs, start, end, offset: 0 })
        } else {
            None
        }
    }

    /// The position of the first sample of the range.
    pub fn start(&self) -> (n: usize)
        ensures
            n == self.spec_start(),
    {
        self.start
    }

    /// The position of the last sample of the range.
    pub fn end(&self) -> (n: usize)
        ensures
            n == self.spec_end(),
    {
        self.end
    }

    /// How far the cursor stands from the start of its range.
    pub fn offset(&self) -> (n: usize)
        ensures
            n == self.spec_offset(),
    {
        self.offset
    }

    /// The arc length at the first sample of the range.
    pub fn start_distance(&self) -> (d: Scalar)
        requires
            self.wf(),
        ensures
            d == self.spec_arcs()[self.spec_start()],
    {
        self.arcs[self.start]
    }

    /// The arc length at the last sample of the range.
    pub fn end_distance(&self) -> (d: Scalar)
        requires
            self.wf(),
        ensures
            d == self.spec_arcs()[self.spec_end()],
    {
        self.arcs[self.end]
    }

    /// Moves the cursor forward to where `distance` falls and names the
    /// samples on either side of it.
    pub fn seek(&mut self, distance: Scalar) -> (bracket: Bracket)
        requires
            old(self).wf(),
        ensures
            final(self).wf(),
            final(self).spec_arcs() == old(self).spec_arcs(),
            final(self).spec_start() == old(self).spec_start(),
            final(self).spec_end() == old(self).spec_end(),
            final(self).spec_offset() == spec_seek_offset(
                old(self).spec_arcs(),
                old(self).spec_start(),
                old(self).spec_end(),
                old(self).spec_offset(),
                distance,
            ),
            bracket == spec_seek_bracket(
                old(self).spec_arcs(),
                old(self).spec_start(),
                old(self).spec_end(),
                old(self).spec_offset(),
                distance,
            ),
    {
        let end = self.end;
        if distance.ge(self.arcs[end]) {
            self.offset = end - self.start;
            return Bracket::End;
        }
        let from: usize = self.start + self.offset;
        let mut i: usize = from;
        let ghost arcs = self.arcs@;
        while i < end
            invariant
                from <= i <= end,
                end < arcs.len(),
                arcs == self.arcs@,
                arcs == old(self).arcs@,
                self.start == old(self).start,
                self.end == end,
                end == old(self).end,
                self.start <= from,
                !distance.spec_ge(arcs[end as int]),
                self.offset == old(self).offset,
                from == self.start + self.offset,
                spec_first_reaching(arcs, from as int, end as int, distance) == spec_first_reaching(
                    arcs,
                    i as int,
                    end as int,
                    distance,
                ),
            decreases end - i,
        {
            if self.arcs[i + 1].ge(distance) {
                self.offset = i - self.start;
                return Bracket::Between { lower: i, upper: i + 1 };
            }
            i += 1;
        }
        if from < end {
            Bracket::Between { lower: from, upper: from + 1 }
        } else {
            Bracket::End
        }
    }
}

/// What the search finds: a position of the range from the cursor on whose
/// upper neighbour reaches the distance, before which no upper neighbour
/// does; or the end of the range, if none does.
pub proof fn lemma_first_reaching(arcs: Seq<Scalar>, from: int, end: int, distance: Scalar)
    requires
        from <= end,
    ensures
        from <= spec_first_reaching(arcs, from, end, distance) <= end,
        spec_first_reaching(arcs, from, end, distance) < end ==> arcs[spec_first_reaching(
            arcs,
            from,
            end,
            distance,
        ) + 1].spec_ge(distance),
        forall|k: int|
            from <= k < spec_first_reaching(arcs, from, end, distance) ==> !(#[trigger] arcs[k
                + 1]).spec_ge(distance),
    decreases end - from,
{
    if from < end && !arcs[from + 1].spec_ge(distance) {
        lemma_first_reaching(arcs, from + 1, end, distance);
    }
}

/// The cursor never moves back, and never leaves its range.
pub proof fn lemma_seek_never_rewinds(
    arcs: Seq<Scalar>,
    start: int,
    end: int,
    offset: int,
    distance: Scalar,
)
    requires
        0 <= start <= end < arcs.len(),
        0 <= offset <= end - start,
    ensures
        offset <= spec_seek_offset(arcs, start, end, offset, distance) <= end - start,
{
    lemma_first_reaching(arcs, start + offset, end, distance);
}

/// A distance at or past the end of the range is answered with the end,
/// and the cursor then stands there. Any other answer names two
/// neighbouring samples of the range, the lower one where the cursor
/// stands afterwards.
pub proof fn lemma_seek_bracket_shape(
    arcs: Seq<Scalar>,
    start: int,
    end: int,
    offset: int,
    distance: Scalar,
)
    requires
        0 <= start <= end < arcs.len(),
        0 <= offset <= end - start,
        end < usize::MAX,
    ensures
        distance.spec_ge(arcs[end]) ==> spec_seek_bracket(arcs, start, end, offset, distance)
            == Bracket::End && spec_seek_offset(arcs, start, end, offset, distance) == end
            - start,
        spec_seek_bracket(arcs, start, end, offset, distance) matches Bracket::Between {
            lower,
            upper,
        } ==> {
            &&& lower == start + spec_seek_offset(arcs, start, end, offset, distance)
            &&& upper == lower + 1
            &&& start + offset <= lower
            &&& upper <= end
            &&& !distance.spec_ge(arcs[end])
        },
{
    lemma_first_reaching(arcs, start + offset, end, distance);
}

/// Where some sample ahead of the cursor reaches the distance, the answer
/// brackets it: the upper sample lies at or past the distance, and no
/// sample between the cursor and the upper one does.
pub proof fn lemma_seek_brackets_distance(
    arcs: Seq<Scalar>,
    start: int,
    end: int,
    offset: int,
    distance: Scalar,
    witness: int,
)
    requires
        0 <= start <= end < arcs.len(),
        0 <= offset <= end - start,
        end < usize::MAX,
        !distance.spec_ge(arcs[end]),
        start + offset < witness <= end,
        arcs[witness].spec_ge(distance),
    ensures
        spec_seek_bracket(arcs, start, end, offset, distance) matches Bracket::Between {
            lower,
            upper,
        } && arcs[upper as int].spec_ge(distance) && upper <= witness && forall|k: int|
            start + offset < k < upper ==> !(#[trigger] arcs[k]).spec_ge(distance),
{
    let found = spec_first_reaching(arcs, start + offset, end, distance);
    lemma_first_reaching(arcs, start + offset, end, distance);
    if found >= witness {
        assert(!arcs[(witness - 1) + 1].spec_ge(distance));
    }
    assert forall|k: int| start + offset < k < found + 1 implies !(#[trigger] arcs[k]).spec_ge(
        distance,
    ) by {
        assert(!arcs[(k - 1) + 1].spec_ge(distance));
    }
}

} // verus!
