//! The confirm/abort gesture, recognised after arming.
//!
//! The detector classifies the motion between consecutive cursor
//! samples into two segment directions: `Positive`, a down-right
//! diagonal (`x` increases and `x - y` stays within `tolerance` of the
//! 45-degree line), and `Negative`, a straight downward stroke (`y`
//! increases while `x` stays within `tolerance`).  A segment direction
//! is recorded into the pattern history only when it differs from the
//! last recorded direction and the displacement from the segment's
//! anchor reaches `min_seg` (the anti-jitter guard); further samples
//! in the same direction are absorbed as continuation.  A sample that
//! fits neither direction resets the history.  Once two directions
//! are recorded the detector decides:
//!
//! * `[Positive, Negative]` with vertical displacement from the
//!   pattern anchor at or beyond `depth` confirms the backup;
//! * `[Negative, Positive]` with the symmetric horizontal condition
//!   aborts it;
//! * a further direction change instead drops the recorded pattern.
//!
//! Cancellation is cooperative: when the caller reports that an
//! external decision exists, a step returns the abort outcome at once
//! and leaves the detector state untouched.

use vstd::prelude::*;

use crate::geometry::Direction;
use crate::geometry::Point;

verus! {

/// The motion segment currently being tracked, if any.
#[derive(Clone, Copy, PartialEq, Eq, Structural, Debug)]
pub enum SegmentState {
    Idle,
    Tracking { dir: Direction, anchor: Point },
}

/// The directions recorded so far.  The second recorded direction is
/// always the opposite of the first, so a full history only stores the
/// first direction together with the pattern anchor: the point where
/// the first recorded segment began.
#[derive(Clone, Copy, PartialEq, Eq, Structural, Debug)]
pub enum History {
    Empty,
    One { first: Direction, anchor: Point },
    Full { first: Direction, anchor: Point },
}

/// What a caller observes after feeding one sample: still undecided,
/// or decided with true for confirm and false for abort.
#[derive(Clone, Copy, PartialEq, Eq, Structural, Debug)]
pub enum ConfirmOutcome {
    Pending,
    Decided(bool),
}

/// The confirm gesture detector.
#[derive(Clone, Copy, PartialEq, Eq, Debug)]
pub struct Confirm {
    /// The previous cursor sample, against which motion is classified.
    pub prev: Point,
    /// The segment currently being tracked.
    pub seg: SegmentState,
    /// The recorded pattern so far.
    pub hist: History,
    /// Band half-width for classifying a motion delta.
    pub tolerance: i32,
    /// Displacement from the pattern anchor required for a decision.
    pub depth: i32,
    /// Displacement from the segment anchor required to record it.
    pub min_seg: i32,
    /// The decision, once one is reached; decisions are final.
    pub done: Option<bool>,
}

/// Classify one motion delta, diagonal first.
pub open spec fn classify(dx: int, dy: int, tol: int) -> Option<Direction> {
    if dx > 0 && -tol <= dx - dy <= tol {
        Some(Direction::Positive)
    } else if dy > 0 && -tol <= dx <= tol {
        Some(Direction::Negative)
    } else {
        None
    }
}

/// The anchor of the segment that sample continues or begins: kept
/// when the direction matches the tracked segment, otherwise the
/// previous sample.
pub open spec fn segment_anchor(c: Confirm, d: Direction) -> Point {
    match c.seg {
        SegmentState::Tracking { dir, anchor } => if dir == d {
            anchor
        } else {
            c.prev
        },
        SegmentState::Idle => c.prev,
    }
}

/// Displacement of sample `p` from `anchor` along the travel axis of
/// direction `d`: horizontal for the diagonal, vertical for the
/// downward stroke.
pub open spec fn segment_disp(d: Direction, anchor: Point, p: Point) -> int {
    match d {
        Direction::Positive => p.x - anchor.x,
        Direction::Negative => p.y - anchor.y,
    }
}

/// Update the recorded pattern for a sample of direction `d` whose
/// segment displacement is `disp`.
pub open spec fn history_update(h: History, d: Direction, anchor: Point, disp: int, min_seg: int) -> History {
    match h {
        History::Empty => if disp >= min_seg {
            History::One { first: d, anchor }
        } else {
            h
        },
        History::One { first, anchor: a0 } => if d == first {
            h
        } else if disp >= min_seg {
            History::Full { first, anchor: a0 }
        } else {
            h
        },
        History::Full { first, anchor: a0 } => if d != first {
            h
        } else {
            History::Empty
        },
    }
}

/// Decide once the history is full: a `[Positive, Negative]` pattern
/// confirms at `depth` of vertical displacement from the pattern
/// anchor, a `[Negative, Positive]` pattern aborts at `depth` of
/// horizontal displacement.
pub open spec fn decision_check(c: Confirm, p: Point) -> Confirm {
    match c.hist {
        History::Full { first, anchor } => match first {
            Direction::Positive => if p.y - anchor.y >= c.depth {
                Confirm { done: Some(true), ..c }
            } else {
                c
            },
            Direction::Negative => if p.x - anchor.x >= c.depth {
                Confirm { done: Some(false), ..c }
            } else {
                c
            },
        },
        _ => c,
    }
}

/// One transition of the detector on an uncancelled sample.
pub open spec fn confirm_step(c: Confirm, p: Point) -> Confirm {
    if c.done is Some {
        c
    } else {
        match classify(p.x - c.prev.x, p.y - c.prev.y, c.tolerance as int) {
            None => Confirm { prev: p, seg: SegmentState::Idle, hist: History::Empty, ..c },
            Some(d) => {
                let anchor = segment_anchor(c, d);
                let c1 = Confirm {
                    prev: p,
                    seg: SegmentState::Tracking { dir: d, anchor },
                    hist: history_update(
                        c.hist,
                        d,
                        anchor,
                        segment_disp(d, anchor, p),
                        c.min_seg as int,
                    ),
                    ..c
                };
                decision_check(c1, p)
            }
        }
    }
}

/// The detector state after consuming a whole sample sequence.
pub open spec fn confirm_run(c: Confirm, samples: Seq<Point>) -> Confirm
    decreases samples.len(),
{
    if samples.len() == 0 {
        c
    } else {
        confirm_run(confirm_step(c, samples[0]), samples.skip(1))
    }
}

/// The outcome a caller observes in a given state.
pub open spec fn outcome_of(c: Confirm) -> ConfirmOutcome {
    match c.done {
        Some(b) => ConfirmOutcome::Decided(b),
        None => ConfirmOutcome::Pending,
    }
}

impl Confirm {
    /// A fresh detector whose previous sample is `start`.
    pub fn new(start: Point, tolerance: i32, depth: i32, min_seg: i32) -> (c: Confirm)
        ensures
            c == (Confirm {
                prev: start,
                seg: SegmentState::Idle,
                hist: History::Empty,
                tolerance,
                depth,
                min_seg,
                done: None,
            }),
    {
        Confirm {
            prev: start,
            seg: SegmentState::Idle,
            hist: History::Empty,
            tolerance,
            depth,
            min_seg,
            done: None,
        }
    }

    /// Feed one cursor sample.  When `cancelled` reports an external
    /// decision, the step returns the abort outcome immediately and
    /// the detector state is left exactly as it was.
    pub fn step(&mut self, cancelled: bool, p: Point) -> (r: ConfirmOutcome)
        ensures
            cancelled ==> *final(self) == *old(self) && r == ConfirmOutcome::Decided(false),
            !cancelled ==> *final(self) == confirm_step(*old(self), p) && r == outcome_of(
                *final(self),
            ),
    {
        if cancelled {
            return ConfirmOutcome::Decided(false);
        }
        if let Some(b) = self.done {
            return ConfirmOutcome::Decided(b);
        }
        let dx = (p.x as i64) - (self.prev.x as i64);
        let dy = (p.y as i64) - (self.prev.y as i64);
        let tol = self.tolerance as i64;
        let classified: Option<Direction> = if dx > 0 && dx - dy <= tol && -tol <= dx - dy {
            Some(Direction::Positive)
        } else if dy > 0 && dx <= tol && -tol <= dx {
            Some(Direction::Negative)
        } else {
            None
        };
        match classified {
            None => {
                self.prev = p;
                self.seg = SegmentState::Idle;
                self.hist = History::Empty;
                ConfirmOutcome::Pending
            }
            Some(d) => {
                let anchor = match self.seg {
                    SegmentState::Tracking { dir, anchor } => if dir == d {
                        anchor
                    } else {
                        self.prev
                    },
                    SegmentState::Idle => self.prev,
                };
                let disp = match d {
                    Direction::Positive => (p.x as i64) - (anchor.x as i64),
                    Direction::Negative => (p.y as i64) - (anchor.y as i64),
                };
                let min_seg = self.min_seg as i64;
                self.hist = match self.hist {
                    History::Empty => if disp >= min_seg {
                        History::One { first: d, anchor }
                    } else {
                        History::Empty
                    },
                    History::One { first, anchor: a0 } => if d == first {
                        History::One { first, anchor: a0 }
                    } else if disp >= min_seg {
                        History::Full { first, anchor: a0 }
                    } else {
                        History::One { first, anchor: a0 }
                    },
                    History::Full { first, anchor: a0 } => if d != first {
                        History::Full { first, anchor: a0 }
                    } else {
                        History::Empty
                    },
                };
                self.seg = SegmentState::Tracking { dir: d, anchor };
                self.prev = p;
                match self.hist {
                    History::Full { first, anchor: a0 } => {
                        match first {
                            Direction::Positive => {
                                if (p.y as i64) - (a0.y as i64) >= (self.depth as i64) {
                                    self.done = Some(true);
                                    ConfirmOutcome::Decided(true)
                                } else {
                                    ConfirmOutcome::Pending
                                }
                            }
                            Direction::Negative => {
                                if (p.x as i64) - (a0.x as i64) >= (self.depth as i64) {
                                    self.done = Some(false);
                                    ConfirmOutcome::Decided(false)
                                } else {
                                    ConfirmOutcome::Pending
                                }
                            }
                        }
                    }
                    _ => ConfirmOutcome::Pending,
                }
            }
        }
    }

    /// Run the detector over a finite sample sequence: `Some(true)`
    /// confirms, `Some(false)` aborts, `None` means the samples ran
    /// out undecided.
    pub fn confirm(&mut self, samples: &Vec<Point>) -> (r: Option<bool>)
        ensures
            *final(self) == confirm_run(*old(self), samples@),
            r == final(self).done,
    {
        let ghost c0 = *self;
        assert(samples@.skip(0) =~= samples@);
        let mut i: usize = 0;
        while i < samples.len()
            invariant
                0 <= i <= samples.len(),
                confirm_run(c0, samples@) == confirm_run(*self, samples@.skip(i as int)),
            decreases samples.len() - i,
        {
            assert(samples@.skip(i as int)[0] == samples@[i as int]);
            assert(samples@.skip(i as int).skip(1) == samples@.skip(i as int + 1));
            self.step(false, samples[i]);
            i = i + 1;
        }
        assert(samples@.skip(samples@.len() as int) =~= Seq::<Point>::empty());
        self.done
    }
}

/// The sample against which sample `j` of a run is classified: the
/// detector's starting point for the first sample, else its
/// predecessor in the sequence.
pub open spec fn sample_prev(c: Confirm, samples: Seq<Point>, j: int) -> Point {
    if j == 0 {
        c.prev
    } else {
        samples[j - 1]
    }
}

/// How sample `j` of a run over `samples` is classified.
pub open spec fn classified_dir(c: Confirm, samples: Seq<Point>, j: int) -> Option<Direction> {
    classify(
        samples[j].x - sample_prev(c, samples, j).x,
        samples[j].y - sample_prev(c, samples, j).y,
        c.tolerance as int,
    )
}

/// A reached decision absorbs every further sample.
pub proof fn lemma_confirm_run_absorbing(c: Confirm, samples: Seq<Point>)
    requires
        c.done is Some,
    ensures
        confirm_run(c, samples) == c,
    decreases samples.len(),
{
    if samples.len() > 0 {
        lemma_confirm_run_absorbing(c, samples.skip(1));
    }
}

/// Appending one sample to a run steps the run's final state.
proof fn lemma_confirm_run_push(c: Confirm, samples: Seq<Point>, p: Point)
    ensures
        confirm_run(c, samples.push(p)) == confirm_step(confirm_run(c, samples), p),
    decreases samples.len(),
{
    if samples.len() == 0 {
        assert(samples.push(p)[0] == p);
        assert(confirm_run(c, samples.push(p)) == confirm_run(
            confirm_step(c, p),
            samples.push(p).skip(1),
        ));
        assert(samples.push(p).skip(1) =~= Seq::<Point>::empty());
        assert(confirm_run(confirm_step(c, p), Seq::<Point>::empty()) == confirm_step(c, p));
    } else {
        assert(samples.push(p)[0] == samples[0]);
        assert(confirm_run(c, samples.push(p)) == confirm_run(
            confirm_step(c, samples[0]),
            samples.push(p).skip(1),
        ));
        assert(samples.push(p).skip(1) =~= samples.skip(1).push(p));
        lemma_confirm_run_push(confirm_step(c, samples[0]), samples.skip(1), p);
        assert(confirm_run(c, samples) == confirm_run(
            confirm_step(c, samples[0]),
            samples.skip(1),
        ));
    }
}

/// Running one sample further steps the state of the prefix run.
proof fn lemma_confirm_run_take_succ(c: Confirm, samples: Seq<Point>, j: int)
    requires
        0 <= j < samples.len(),
    ensures
        confirm_run(c, samples.take(j + 1)) == confirm_step(
            confirm_run(c, samples.take(j)),
            samples[j],
        ),
{
    assert(samples.take(j + 1) =~= samples.take(j).push(samples[j]));
    lemma_confirm_run_push(c, samples.take(j), samples[j]);
}

/// State of a fresh detector after `j` samples that all classify as
/// `Positive`: one diagonal segment anchored at the starting point,
/// recorded as soon as its horizontal displacement reaches `min_seg`.
proof fn lemma_positive_phase(c: Confirm, samples: Seq<Point>, j: int)
    requires
        c.done is None,
        c.seg is Idle,
        c.hist is Empty,
        1 <= j <= samples.len(),
        forall|k: int|
            0 <= k < j ==> classified_dir(c, samples, k) == Some(Direction::Positive),
    ensures
        confirm_run(c, samples.take(j)) == (Confirm {
            prev: samples[j - 1],
            seg: SegmentState::Tracking { dir: Direction::Positive, anchor: c.prev },
            hist: if samples[j - 1].x - c.prev.x >= c.min_seg {
                History::One { first: Direction::Positive, anchor: c.prev }
            } else {
                History::Empty
            },
            ..c
        }),
        samples[j - 1].x > c.prev.x,
    decreases j,
{
    if j == 1 {
        assert(samples.take(0) =~= Seq::<Point>::empty());
        lemma_confirm_run_take_succ(c, samples, 0);
        assert(classified_dir(c, samples, 0) == Some(Direction::Positive));
    } else {
        lemma_positive_phase(c, samples, j - 1);
        lemma_confirm_run_take_succ(c, samples, j - 1);
        assert(classified_dir(c, samples, j - 1) == Some(Direction::Positive));
    }
}

/// State of a fresh detector after `j` samples that all classify as
/// `Negative`: one downward segment anchored at the starting point,
/// recorded as soon as its vertical displacement reaches `min_seg`.
proof fn lemma_negative_phase(c: Confirm, samples: Seq<Point>, j: int)
    requires
        c.done is None,
        c.seg is Idle,
        c.hist is Empty,
        1 <= j <= samples.len(),
        forall|k: int|
            0 <= k < j ==> classified_dir(c, samples, k) == Some(Direction::Negative),
    ensures
        confirm_run(c, samples.take(j)) == (Confirm {
            prev: samples[j - 1],
            seg: SegmentState::Tracking { dir: Direction::Negative, anchor: c.prev },
            hist: if samples[j - 1].y - c.prev.y >= c.min_seg {
                History::One { first: Direction::Negative, anchor: c.prev }
            } else {
                History::Empty
            },
            ..c
        }),
        samples[j - 1].y > c.prev.y,
    decreases j,
{
    if j == 1 {
        assert(samples.take(0) =~= Seq::<Point>::empty());
        lemma_confirm_run_take_succ(c, samples, 0);
        assert(classified_dir(c, samples, 0) == Some(Direction::Negative));
    } else {
        lemma_negative_phase(c, samples, j - 1);
        lemma_confirm_run_take_succ(c, samples, j - 1);
        assert(classified_dir(c, samples, j - 1) == Some(Direction::Negative));
    }
}

/// Detector state within the downward phase of a
/// `[Positive, Negative]` pattern, before a decision is reached.
spec fn pn_shape(c: Confirm, samples: Seq<Point>, m: int, j: int) -> Confirm {
    Confirm {
        prev: samples[j - 1],
        seg: SegmentState::Tracking { dir: Direction::Negative, anchor: samples[m - 1] },
        hist: if samples[j - 1].y - samples[m - 1].y >= c.min_seg {
            History::Full { first: Direction::Positive, anchor: c.prev }
        } else {
            History::One { first: Direction::Positive, anchor: c.prev }
        },
        ..c
    }
}

/// Through the downward phase of a `[Positive, Negative]` pattern the
/// detector either has already confirmed, or matches `pn_shape` with
/// the decision conditions not yet both met.
proof fn lemma_pn_phase(c: Confirm, samples: Seq<Point>, m: int, j: int)
    requires
        c.done is None,
        c.seg is Idle,
        c.hist is Empty,
        1 <= m < j <= samples.len(),
        forall|k: int|
            0 <= k < m ==> classified_dir(c, samples, k) == Some(Direction::Positive),
        forall|k: int|
            m <= k < j ==> classified_dir(c, samples, k) == Some(Direction::Negative),
        samples[m - 1].x - c.prev.x >= c.min_seg,
    ensures
        confirm_run(c, samples.take(j)).done == Some(true) || (confirm_run(c, samples.take(j))
            == pn_shape(c, samples, m, j) && !(samples[j - 1].y - samples[m - 1].y >= c.min_seg
            && samples[j - 1].y - c.prev.y >= c.depth)),
    decreases j,
{
    if j == m + 1 {
        lemma_positive_phase(c, samples, m);
        lemma_confirm_run_take_succ(c, samples, m);
        assert(classified_dir(c, samples, m) == Some(Direction::Negative));
    } else {
        lemma_pn_phase(c, samples, m, j - 1);
        lemma_confirm_run_take_succ(c, samples, j - 1);
        assert(classified_dir(c, samples, j - 1) == Some(Direction::Negative));
        if confirm_run(c, samples.take(j - 1)).done == Some(true) {
        } else {
            assert(samples[j - 1].y > samples[j - 2].y);
        }
    }
}

/// Detector state within the diagonal phase of a
/// `[Negative, Positive]` pattern, before a decision is reached.
spec fn np_shape(c: Confirm, samples: Seq<Point>, m: int, j: int) -> Confirm {
    Confirm {
        prev: samples[j - 1],
        seg: SegmentState::Tracking { dir: Direction::Positive, anchor: samples[m - 1] },
        hist: if samples[j - 1].x - samples[m - 1].x >= c.min_seg {
            History::Full { first: Direction::Negative, anchor: c.prev }
        } else {
            History::One { first: Direction::Negative, anchor: c.prev }
        },
        ..c
    }
}

/// Through the diagonal phase of a `[Negative, Positive]` pattern the
/// detector either has already aborted, or matches `np_shape` with the
/// decision conditions not yet both met.
proof fn lemma_np_phase(c: Confirm, samples: Seq<Point>, m: int, j: int)
    requires
        c.done is None,
        c.seg is Idle,
        c.hist is Empty,
        1 <= m < j <= samples.len(),
        forall|k: int|
            0 <= k < m ==> classified_dir(c, samples, k) == Some(Direction::Negative),
        forall|k: int|
            m <= k < j ==> classified_dir(c, samples, k) == Some(Direction::Positive),
        samples[m - 1].y - c.prev.y >= c.min_seg,
    ensures
        confirm_run(c, samples.take(j)).done == Some(false) || (confirm_run(c, samples.take(j))
            == np_shape(c, samples, m, j) && !(samples[j - 1].x - samples[m - 1].x >= c.min_seg
            && samples[j - 1].x - c.prev.x >= c.depth)),
    decreases j,
{
    if j == m + 1 {
        lemma_negative_phase(c, samples, m);
        lemma_confirm_run_take_succ(c, samples, m);
        assert(classified_dir(c, samples, m) == Some(Direction::Positive));
    } else {
        lemma_np_phase(c, samples, m, j - 1);
        lemma_confirm_run_take_succ(c, samples, j - 1);
        assert(classified_dir(c, samples, j - 1) == Some(Direction::Positive));
        if confirm_run(c, samples.take(j - 1)).done == Some(false) {
        } else {
            assert(samples[j - 1].x > samples[j - 2].x);
        }
    }
}

/// A `[Positive, Negative]` sample stream confirms.
///
/// Starting from a fresh detector, let the first `m` samples classify
/// as `Positive` and the rest as `Negative`, with the diagonal phase
/// reaching `min_seg` of horizontal displacement, the downward phase
/// reaching `min_seg` of vertical displacement from its own anchor,
/// and the terminal vertical displacement from the pattern anchor at
/// or beyond `depth`.  Then the run decides true: the backup is
/// confirmed.
pub proof fn lemma_confirm_pattern_confirms(c: Confirm, samples: Seq<Point>, m: int)
    requires
        c.done is None,
        c.seg is Idle,
        c.hist is Empty,
        1 <= m < samples.len(),
        forall|k: int|
            0 <= k < m ==> classified_dir(c, samples, k) == Some(Direction::Positive),
        forall|k: int|
            m <= k < samples.len() ==> classified_dir(c, samples, k) == Some(
                Direction::Negative,
            ),
        samples[m - 1].x - c.prev.x >= c.min_seg,
        samples[samples.len() - 1].y - samples[m - 1].y >= c.min_seg,
        samples[samples.len() - 1].y - c.prev.y >= c.depth,
    ensures
        confirm_run(c, samples).done == Some(true),
{
    lemma_pn_phase(c, samples, m, samples.len() as int);
    assert(samples.take(samples.len() as int) =~= samples);
}

/// A `[Negative, Positive]` sample stream aborts.
///
/// The symmetric pattern — a downward phase, then a diagonal phase,
/// with the terminal horizontal displacement from the pattern anchor
/// at or beyond `depth` — decides false: the backup is aborted.
pub proof fn lemma_abort_pattern_aborts(c: Confirm, samples: Seq<Point>, m: int)
    requires
        c.done is None,
        c.seg is Idle,
        c.hist is Empty,
        1 <= m < samples.len(),
        forall|k: int|
            0 <= k < m ==> classified_dir(c, samples, k) == Some(Direction::Negative),
        forall|k: int|
            m <= k < samples.len() ==> classified_dir(c, samples, k) == Some(
                Direction::Positive,
            ),
        samples[m - 1].y - c.prev.y >= c.min_seg,
        samples[samples.len() - 1].x - samples[m - 1].x >= c.min_seg,
        samples[samples.len() - 1].x - c.prev.x >= c.depth,
    ensures
        confirm_run(c, samples).done == Some(false),
{
    lemma_np_phase(c, samples, m, samples.len() as int);
    assert(samples.take(samples.len() as int) =~= samples);
}

} // verus!
