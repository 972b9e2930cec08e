//! The tape a section builder records its samples on.
//!
//! A builder opens a tape on its anchor, asks it before each step whether
//! another step may be taken, records the sample the step produced, and
//! hands the samples out at the end. The tape keeps the anchor first and
//! holds the builder to its step allowance.

use crate::point::Point;
use crate::scalar::Scalar;
use crate::schema::DurationType;
use crate::sim::MAX_ITERATIONS;
use vstd::prelude::*;

verus! {

/// What a tape amounts to: its samples and the steps it still allows.
pub struct Tape {
    pub samples: Seq<Point>,
    pub left: nat,
}

/// The steps a tape allows when a builder asks for `limit` of them.
pub open spec fn spec_allowance(limit: usize) -> nat {
    if limit <= MAX_ITERATIONS {
        limit as nat
    } else {
        MAX_ITERATIONS as nat
    }
}

/// The steps a section in time mode takes at most: one less than the
/// samples asked for, the anchor being the first of them.
pub open spec fn spec_timed_allowance(sample_count: usize) -> nat {
    if sample_count == 0 {
        0
    } else {
        spec_allowance((sample_count - 1) as usize)
    }
}

/// The steps a paced section may take: in time mode one for each sample
/// after the anchor, in distance mode as many as the cap allows.
pub open spec fn spec_paced_allowance(duration_type: DurationType, sample_count: usize) -> nat {
    match duration_type {
        DurationType::Time => spec_timed_allowance(sample_count),
        DurationType::Distance => spec_allowance(MAX_ITERATIONS),
    }
}

/// Whether a tape takes another step: a step is left, and the progress
/// made so far falls short of the goal.
pub open spec fn spec_goes_on(tape: Tape, progress: Scalar, goal: Scalar) -> bool {
    tape.left > 0 && progress.spec_lt(goal)
}

/// A fresh tape: the anchor alone, and the allowance.
pub open spec fn spec_begin(anchor: Point, allowance: nat) -> Tape {
    Tape { samples: seq![anchor], left: allowance }
}

/// A tape after one more sample was offered to it: appended while a step
/// is left, ignored once none is.
pub open spec fn spec_record(tape: Tape, sample: Point) -> Tape {
    if tape.left > 0 {
        Tape { samples: tape.samples.push(sample), left: (tape.left - 1) as nat }
    } else {
        tape
    }
}

/// A tape after the samples `offered` were offered to it in order.
pub open spec fn spec_run(tape: Tape, offered: Seq<Point>) -> Tape
    decreases offered.len(),
{
    if offered.len() == 0 {
        tape
    } else {
        spec_record(spec_run(tape, offered.drop_last()), offered.last())
    }
}

/// How long a section lasts: so many seconds, or so many metres.
#[derive(Debug, Copy, Clone, PartialEq, Eq, Structural)]
pub struct IterationConfig {
    pub duration: Scalar,
    pub duration_type: DurationType,
}

impl IterationConfig {
    pub fn new(duration: Scalar, duration_type: DurationType) -> (config: IterationConfig)
        ensures
            config == (IterationConfig { duration, duration_type }),
    {
        IterationConfig { duration, duration_type }
    }
}

/// The samples of a section so far and the steps it may still take.
pub struct Section {
    points: Vec<Point>,
    left: usize,
}

impl Section {
    /// What every tape made by `begin` satisfies: it holds at least the
    /// anchor, and its samples and remaining steps stay within the cap.
    pub closed spec fn wf(&self) -> bool {
        &&& self.points@.len() >= 1
        &&& self.points@.len() + self.left <= MAX_ITERATIONS + 1
    }

    /// The samples recorded so far and the steps left.
    pub closed spec fn view(&self) -> Tape {
        Tape { samples: self.points@, left: self.left as nat }
    }

    /// Opens a tape that holds the anchor and allows `limit` steps, or the
    /// most a section may take if that is fewer.
    pub fn begin(anchor: Point, limit: usize) -> (s: Section)
        ensures
            s.wf(),
            s@ == spec_begin(anchor, spec_allowance(limit)),
    {
        let mut points: Vec<Point> = Vec::new();
        points.push(anchor);
        let left: usize = if limit <= MAX_ITERATIONS {
            limit
        } else {
            MAX_ITERATIONS
        };
        Section { points, left }
    }

    /// Opens a tape for a section that is to hold `sample_count` samples,
    /// the anchor included.
    pub fn begin_timed(anchor: Point, sample_count: usize) -> (s: Section)
        ensures
            s.wf(),
            s@ == spec_begin(anchor, spec_timed_allowance(sample_count)),
    {
        if sample_count == 0 {
            Section::begin(anchor, 0)
        } else {
            Section::begin(anchor, sample_count - 1)
        }
    }

    /// Opens a tape for a section that is paced by the clock or by arc
    /// length. `sample_count` is the duration in seconds times the sample
    /// rate, rounded down; it counts only in time mode.
    pub fn begin_paced(anchor: Point, duration_type: DurationType, sample_count: usize) -> (s:
        Section)
        ensures
            s.wf(),
            s@ == spec_begin(anchor, spec_paced_allowance(duration_type, sample_count)),
    {
        match duration_type {
            DurationType::Time => Section::begin_timed(anchor, sample_count),
            DurationType::Distance => Section::begin(anchor, MAX_ITERATIONS),
        }
    }

    /// The number of samples recorded, the anchor included.
    pub fn len(&self) -> (n: usize)
        requires
            self.wf(),
        ensures
            n == self@.samples.len(),
            1 <= n <= MAX_ITERATIONS + 1,
    {
        self.points.len()
    }

    /// The number of steps taken so far.
    pub fn steps(&self) -> (n: usize)
        requires
            self.wf(),
        ensures
            n == self@.samples.len() - 1,
    {
        self.points.len() - 1
    }

    /// The steps that may still be taken.
    pub fn remaining(&self) -> (n: usize)
        ensures
            n == self@.left,
    {
        self.left
    }

    /// Whether another step may be taken.
    pub fn may_step(&self) -> (b: bool)
        ensures
            b == (self@.left > 0),
    {
        self.left > 0
    }

    /// Whether another step is taken by a builder that runs until its
    /// progress reaches a goal.
    pub fn goes_on(&self, progress: Scalar, goal: Scalar) -> (b: bool)
        ensures
            b == spec_goes_on(self@, progress, goal),
    {
        self.left > 0 && progress.lt(goal)
    }

    /// The anchor the tape was opened on.
    pub fn anchor(&self) -> (p: Point)
        requires
            self.wf(),
        ensures
            self@.samples.len() >= 1,
            p == self@.samples[0],
    {
        self.points[0]
    }

    /// The last sample recorded: the state the next step starts from.
    pub fn state(&self) -> (p: Point)
        requires
            self.wf(),
        ensures
            self@.samples.len() >= 1,
            p == self@.samples.last(),
    {
        self.points[self.points.len() - 1]
    }

    /// Records the sample of one step. When no step is left the tape stays
    /// as it is and the answer is `false`.
    pub fn record(&mut self, sample: Point) -> (recorded: bool)
        requires
            old(self).wf(),
        ensures
            final(self).wf(),
            final(self)@ == spec_record(old(self)@, sample),
            recorded == (old(self)@.left > 0),
    {
        if self.left == 0 {
            return false;
        }
        self.points.push(sample);
        self.left = self.left - 1;
        true
    }

    /// Hands out the samples. The anchor is the first of them, and there
    /// are never more than the step cap allows.
    pub fn finish(self) -> (points: Vec<Point>)
        requires
            self.wf(),
        ensures
            points@ == self@.samples,
            1 <= points@.len() <= MAX_ITERATIONS + 1,
    {
        self.points
    }
}

/// Whatever is offered to a tape, it holds the anchor it was opened on
/// followed by the first of the offered samples, as many as the allowance
/// admits; the steps used and the steps left add up to the allowance.
pub proof fn lemma_run_records_prefix(anchor: Point, allowance: nat, offered: Seq<Point>)
    ensures
        ({
            let tape = spec_run(spec_begin(anchor, allowance), offered);
            let taken = if offered.len() <= allowance {
                offered.len()
            } else {
                allowance
            };
            &&& tape.samples == seq![anchor] + offered.take(taken as int)
            &&& tape.left == allowance - taken
        }),
    decreases offered.len(),
{
    let tape = spec_run(spec_begin(anchor, allowance), offered);
    let taken = if offered.len() <= allowance {
        offered.len()
    } else {
        allowance
    };
    if offered.len() == 0 {
        assert(tape.samples =~= seq![anchor] + offered.take(0));
    } else {
        let before = offered.drop_last();
        lemma_run_records_prefix(anchor, allowance, before);
        let prev = spec_run(spec_begin(anchor, allowance), before);
        if before.len() < allowance {
            assert(before.take(before.len() as int) =~= before);
            assert(offered.take(offered.len() as int) =~= offered);
            assert(offered =~= before.push(offered.last()));
            assert(tape.samples =~= seq![anchor] + offered.take(taken as int));
        } else {
            assert(before.take(allowance as int) =~= offered.take(allowance as int));
        }
    }
}

/// The first sample of a section is its anchor, bit for bit, whatever the
/// builder recorded after it, and a section never holds more samples than
/// its allowance and the anchor make.
pub proof fn lemma_run_starts_at_anchor(anchor: Point, allowance: nat, offered: Seq<Point>)
    ensures
        spec_run(spec_begin(anchor, allowance), offered).samples.len() >= 1,
        spec_run(spec_begin(anchor, allowance), offered).samples[0] == anchor,
        spec_run(spec_begin(anchor, allowance), offered).samples.len() <= allowance + 1,
{
    lemma_run_records_prefix(anchor, allowance, offered);
}

/// A tape does not go on when its progress has the value of the goal, or
/// when either is NaN.
pub proof fn lemma_goal_reached(tape: Tape, progress: Scalar, goal: Scalar)
    ensures
        progress.spec_same_value(goal) ==> !spec_goes_on(tape, progress, goal),
        progress.spec_is_nan() || goal.spec_is_nan() ==> !spec_goes_on(tape, progress, goal),
        progress.spec_ge(goal) ==> !spec_goes_on(tape, progress, goal),
        tape.left == 0 ==> !spec_goes_on(tape, progress, goal),
{
}

/// With no step allowed, the section is the anchor alone.
pub proof fn lemma_run_without_steps(anchor: Point, offered: Seq<Point>)
    ensures
        spec_run(spec_begin(anchor, 0), offered).samples == seq![anchor],
{
    lemma_run_records_prefix(anchor, 0, offered);
    assert(seq![anchor] + offered.take(0) =~= seq![anchor]);
}

} // verus!
