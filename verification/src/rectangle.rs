//! The arming gesture: a clockwise traversal of an axis-aligned
//! rectangle anchored at the cursor's starting position.
//!
//! The detector is a state machine over cursor samples.  It proceeds
//! through four legs in order — right, down, left, up — each leg
//! defined by a target displacement along one axis.  While the
//! travel-axis coordinate has not yet reached the leg target, the
//! orthogonal coordinate must stay within `tolerance` of the leg's
//! fixed axis value; the first sample violating that band fails the
//! whole gesture, whatever comes later.  A sample reaching the travel
//! target advances to the next leg, whose anchor is the leg's
//! endpoint.  Completing all four legs arms the system.
//!
//! The shell feeds the machine live cursor samples one at a time
//! through [`Rectangle::step`]; [`Rectangle::draw_rectangle`] runs the
//! machine over a finite sample sequence.

use vstd::prelude::*;

use crate::geometry::Point;

verus! {

/// The current leg of the traversal, or a terminal outcome.
#[derive(Clone, Copy, PartialEq, Eq, Structural, Debug)]
pub enum RectPhase {
    /// First leg: travel right until `x` reaches `anchor x + width`.
    Right,
    /// Second leg: travel down until `y` reaches `anchor y + height`.
    Down,
    /// Third leg: travel left until `x` is back at `anchor x - width`.
    Left,
    /// Fourth leg: travel up until `y` is back at `anchor y - height`.
    Up,
    /// All four legs completed: the system is armed.
    Done,
    /// Some sample left the tolerance band before its leg target.
    Failed,
}

/// What a caller observes after feeding one sample.
#[derive(Clone, Copy, PartialEq, Eq, Structural, Debug)]
pub enum GestureStatus {
    InProgress,
    Armed,
    Failed,
}

/// The rectangle gesture detector: the anchor of the current leg, the
/// rectangle dimensions, the band tolerance and the current phase.
#[derive(Clone, Copy, PartialEq, Eq, Structural, Debug)]
pub struct Rectangle {
    pub x: i32,
    pub y: i32,
    pub width: i32,
    pub height: i32,
    pub tolerance: i32,
    pub phase: RectPhase,
}

impl Rectangle {
    /// Bounds that keep every leg's endpoint representable in `i32`.
    pub open spec fn wf(self) -> bool {
        &&& 0 <= self.width
        &&& 0 <= self.height
        &&& match self.phase {
            RectPhase::Right => self.x + self.width <= i32::MAX && self.y + self.height
                <= i32::MAX,
            RectPhase::Down => self.y + self.height <= i32::MAX && self.x - self.width
                >= i32::MIN,
            RectPhase::Left => self.x - self.width >= i32::MIN && self.y - self.height
                >= i32::MIN,
            RectPhase::Up => self.y - self.height >= i32::MIN,
            RectPhase::Done => true,
            RectPhase::Failed => true,
        }
    }
}

/// Whether sample `p` reaches the travel target of the current leg.
pub open spec fn leg_reached(s: Rectangle, p: Point) -> bool {
    match s.phase {
        RectPhase::Right => p.x >= s.x + s.width,
        RectPhase::Down => p.y >= s.y + s.height,
        RectPhase::Left => p.x <= s.x - s.width,
        RectPhase::Up => p.y <= s.y - s.height,
        RectPhase::Done => true,
        RectPhase::Failed => true,
    }
}

/// Whether sample `p` keeps its orthogonal coordinate within
/// `tolerance` of the current leg's fixed axis value.
pub open spec fn leg_in_band(s: Rectangle, p: Point) -> bool {
    match s.phase {
        RectPhase::Right | RectPhase::Left => -s.tolerance <= p.y - s.y <= s.tolerance,
        RectPhase::Down | RectPhase::Up => -s.tolerance <= p.x - s.x <= s.tolerance,
        RectPhase::Done => true,
        RectPhase::Failed => true,
    }
}

/// The detector state after the current leg is completed: the anchor
/// moves to the leg's endpoint and the next leg begins.
pub open spec fn leg_advance(s: Rectangle) -> Rectangle {
    match s.phase {
        RectPhase::Right => Rectangle {
            x: (s.x + s.width) as i32,
            phase: RectPhase::Down,
            ..s
        },
        RectPhase::Down => Rectangle { y: (s.y + s.height) as i32, phase: RectPhase::Left, ..s },
        RectPhase::Left => Rectangle { x: (s.x - s.width) as i32, phase: RectPhase::Up, ..s },
        RectPhase::Up => Rectangle { y: (s.y - s.height) as i32, phase: RectPhase::Done, ..s },
        RectPhase::Done => s,
        RectPhase::Failed => s,
    }
}

/// One transition of the detector.  Terminal phases absorb; a leg
/// first checks its travel target, and only a sample short of the
/// target is held to the tolerance band.
pub open spec fn rect_step(s: Rectangle, p: Point) -> Rectangle {
    match s.phase {
        RectPhase::Done | RectPhase::Failed => s,
        _ => if leg_reached(s, p) {
            leg_advance(s)
        } else if leg_in_band(s, p) {
            s
        } else {
            Rectangle { phase: RectPhase::Failed, ..s }
        },
    }
}

/// The detector state after consuming a whole sample sequence.
pub open spec fn rect_run(s: Rectangle, samples: Seq<Point>) -> Rectangle
    decreases samples.len(),
{
    if samples.len() == 0 {
        s
    } else {
        rect_run(rect_step(s, samples[0]), samples.skip(1))
    }
}

/// The status a caller observes in a given phase.
pub open spec fn status_of(phase: RectPhase) -> GestureStatus {
    match phase {
        RectPhase::Done => GestureStatus::Armed,
        RectPhase::Failed => GestureStatus::Failed,
        _ => GestureStatus::InProgress,
    }
}

impl Rectangle {
    /// A fresh detector anchored at `start`, in the first leg.
    pub fn new(start: Point, width: i32, height: i32, tolerance: i32) -> (r: Rectangle)
        requires
            0 <= width,
            0 <= height,
            start.x + width <= i32::MAX,
            start.y + height <= i32::MAX,
        ensures
            r == (Rectangle {
                x: start.x,
                y: start.y,
                width,
                height,
                tolerance,
                phase: RectPhase::Right,
            }),
            r.wf(),
    {
        Rectangle { x: start.x, y: start.y, width, height, tolerance, phase: RectPhase::Right }
    }

    /// Move the current leg's anchor, as long as the bounds that keep
    /// the remaining legs representable still hold.
    pub fn set_position(&mut self, x: i32, y: i32)
        requires
            (Rectangle { x, y, ..*old(self) }).wf(),
        ensures
            *final(self) == (Rectangle { x, y, ..*old(self) }),
    {
        self.x = x;
        self.y = y;
    }

    /// Feed one cursor sample to the detector.
    pub fn step(&mut self, p: Point) -> (status: GestureStatus)
        requires
            old(self).wf(),
        ensures
            *final(self) == rect_step(*old(self), p),
            final(self).wf(),
            status == status_of(final(self).phase),
    {
        match self.phase {
            RectPhase::Done => GestureStatus::Armed,
            RectPhase::Failed => GestureStatus::Failed,
            RectPhase::Right => {
                if (p.x as i64) >= (self.x as i64) + (self.width as i64) {
                    self.x = self.x + self.width;
                    self.phase = RectPhase::Down;
                    GestureStatus::InProgress
                } else if (p.y as i64) - (self.y as i64) <= (self.tolerance as i64) && -((
                self.tolerance as i64)) <= (p.y as i64) - (self.y as i64) {
                    GestureStatus::InProgress
                } else {
                    self.phase = RectPhase::Failed;
                    GestureStatus::Failed
                }
            }
            RectPhase::Down => {
                if (p.y as i64) >= (self.y as i64) + (self.height as i64) {
                    self.y = self.y + self.height;
                    self.phase = RectPhase::Left;
                    GestureStatus::InProgress
                } else if (p.x as i64) - (self.x as i64) <= (self.tolerance as i64) && -((
                self.tolerance as i64)) <= (p.x as i64) - (self.x as i64) {
                    GestureStatus::InProgress
                } else {
                    self.phase = RectPhase::Failed;
                    GestureStatus::Failed
                }
            }
            RectPhase::Left => {
                if (p.x as i64) <= (self.x as i64) - (self.width as i64) {
                    self.x = self.x - self.width;
                    self.phase = RectPhase::Up;
                    GestureStatus::InProgress
                } else if (p.y as i64) - (self.y as i64) <= (self.tolerance as i64) && -((
                self.tolerance as i64)) <= (p.y as i64) - (self.y as i64) {
                    GestureStatus::InProgress
                } else {
                    self.phase = RectPhase::Failed;
                    GestureStatus::Failed
                }
            }
            RectPhase::Up => {
                if (p.y as i64) <= (self.y as i64) - (self.height as i64) {
                    self.y = self.y - self.height;
                    self.phase = RectPhase::Done;
                    GestureStatus::Armed
                } else if (p.x as i64) - (self.x as i64) <= (self.tolerance as i64) && -((
                self.tolerance as i64)) <= (p.x as i64) - (self.x as i64) {
                    GestureStatus::InProgress
                } else {
                    self.phase = RectPhase::Failed;
                    GestureStatus::Failed
                }
            }
        }
    }

    /// Run the detector over a finite sample sequence; true exactly
    /// when the four legs complete within the sequence.
    pub fn draw_rectangle(&mut self, samples: &Vec<Point>) -> (armed: bool)
        requires
            old(self).wf(),
        ensures
            *final(self) == rect_run(*old(self), samples@),
            final(self).wf(),
            armed == (rect_run(*old(self), samples@).phase == RectPhase::Done),
    {
        let ghost s0 = *self;
        assert(samples@.skip(0) =~= samples@);
        let mut i: usize = 0;
        while i < samples.len()
            invariant
                0 <= i <= samples.len(),
                self.wf(),
                rect_run(s0, samples@) == rect_run(*self, samples@.skip(i as int)),
            decreases samples.len() - i,
        {
            assert(samples@.skip(i as int)[0] == samples@[i as int]);
            assert(samples@.skip(i as int).skip(1) == samples@.skip(i as int + 1));
            self.step(samples[i]);
            i = i + 1;
        }
        assert(samples@.skip(samples@.len() as int) =~= Seq::<Point>::empty());
        matches!(self.phase, RectPhase::Done)
    }
}

/// Terminal phases absorb every further sample.
pub proof fn lemma_rect_run_absorbing(s: Rectangle, samples: Seq<Point>)
    requires
        s.phase == RectPhase::Done || s.phase == RectPhase::Failed,
    ensures
        rect_run(s, samples) == s,
    decreases samples.len(),
{
    if samples.len() > 0 {
        lemma_rect_run_absorbing(s, samples.skip(1));
    }
}

/// Running a sequence is running a prefix and then the rest.
pub proof fn lemma_rect_run_split(s: Rectangle, samples: Seq<Point>, n: int)
    requires
        0 <= n <= samples.len(),
    ensures
        rect_run(s, samples) == rect_run(rect_run(s, samples.take(n)), samples.skip(n)),
    decreases n,
{
    if n > 0 {
        assert(samples.take(n)[0] == samples[0]);
        assert(samples.take(n).skip(1) =~= samples.skip(1).take(n - 1));
        assert(samples.skip(1).skip(n - 1) =~= samples.skip(n));
        lemma_rect_run_split(rect_step(s, samples[0]), samples.skip(1), n - 1);
    } else {
        assert(samples.take(0) =~= Seq::<Point>::empty());
        assert(samples.skip(0) =~= samples);
    }
}

/// One whole leg: if every sample before index `m` stays short of the
/// target and inside the band, and the sample at `m` reaches the
/// target, the run continues from the advanced state.
proof fn lemma_leg_completes(s: Rectangle, samples: Seq<Point>, m: int)
    requires
        s.phase != RectPhase::Done,
        s.phase != RectPhase::Failed,
        0 <= m < samples.len(),
        forall|j: int| 0 <= j < m ==> !leg_reached(s, #[trigger] samples[j]),
        forall|j: int| 0 <= j < m ==> leg_in_band(s, #[trigger] samples[j]),
        leg_reached(s, samples[m]),
    ensures
        rect_run(s, samples) == rect_run(leg_advance(s), samples.skip(m + 1)),
    decreases m,
{
    if m == 0 {
        assert(rect_step(s, samples[0]) == leg_advance(s));
    } else {
        assert(rect_step(s, samples[0]) == s);
        assert(forall|j: int|
            0 <= j < m - 1 ==> #[trigger] samples.skip(1)[j] == samples[j + 1]);
        lemma_leg_completes(s, samples.skip(1), m - 1);
        assert(samples.skip(1).skip(m) =~= samples.skip(m + 1));
    }
}

/// A well-formed four-leg traversal arms the detector.
///
/// The legs are given by their completion indices `m1 < m2 < m3 < m4`:
/// within each leg every earlier sample stays short of the leg target
/// and inside the tolerance band, and the sample at the completion
/// index reaches the target.  Whatever samples follow the fourth
/// completion, the run ends armed.
pub proof fn lemma_traversal_arms(s: Rectangle, samples: Seq<Point>, m1: int, m2: int, m3: int, m4: int)
    requires
        s.phase == RectPhase::Right,
        0 <= m1 < m2 < m3 < m4 < samples.len(),
        forall|j: int| 0 <= j < m1 ==> !leg_reached(s, #[trigger] samples[j]),
        forall|j: int| 0 <= j < m1 ==> leg_in_band(s, #[trigger] samples[j]),
        leg_reached(s, samples[m1]),
        forall|j: int|
            m1 < j < m2 ==> !leg_reached(leg_advance(s), #[trigger] samples[j]),
        forall|j: int| m1 < j < m2 ==> leg_in_band(leg_advance(s), #[trigger] samples[j]),
        leg_reached(leg_advance(s), samples[m2]),
        forall|j: int|
            m2 < j < m3 ==> !leg_reached(leg_advance(leg_advance(s)), #[trigger] samples[j]),
        forall|j: int|
            m2 < j < m3 ==> leg_in_band(leg_advance(leg_advance(s)), #[trigger] samples[j]),
        leg_reached(leg_advance(leg_advance(s)), samples[m3]),
        forall|j: int|
            m3 < j < m4 ==> !leg_reached(
                leg_advance(leg_advance(leg_advance(s))),
                #[trigger] samples[j],
            ),
        forall|j: int|
            m3 < j < m4 ==> leg_in_band(
                leg_advance(leg_advance(leg_advance(s))),
                #[trigger] samples[j],
            ),
        leg_reached(leg_advance(leg_advance(leg_advance(s))), samples[m4]),
    ensures
        rect_run(s, samples).phase == RectPhase::Done,
{
    let s1 = leg_advance(s);
    let s2 = leg_advance(s1);
    let s3 = leg_advance(s2);
    let s4 = leg_advance(s3);
    lemma_leg_completes(s, samples, m1);
    let rest1 = samples.skip(m1 + 1);
    assert(forall|j: int|
        0 <= j < rest1.len() ==> #[trigger] rest1[j] == samples[j + m1 + 1]);
    lemma_leg_completes(s1, rest1, m2 - m1 - 1);
    let rest2 = rest1.skip(m2 - m1);
    assert(rest2 =~= samples.skip(m2 + 1));
    assert(forall|j: int|
        0 <= j < rest2.len() ==> #[trigger] rest2[j] == samples[j + m2 + 1]);
    lemma_leg_completes(s2, rest2, m3 - m2 - 1);
    let rest3 = rest2.skip(m3 - m2);
    assert(rest3 =~= samples.skip(m3 + 1));
    assert(forall|j: int|
        0 <= j < rest3.len() ==> #[trigger] rest3[j] == samples[j + m3 + 1]);
    lemma_leg_completes(s3, rest3, m4 - m3 - 1);
    let rest4 = rest3.skip(m4 - m3);
    assert(s4.phase == RectPhase::Done);
    lemma_rect_run_absorbing(s4, rest4);
}

/// One bad sample fails the gesture for good: if, at some index, the
/// detector is still in a leg and the sample there neither reaches the
/// leg target nor stays inside the tolerance band, the run ends
/// failed, regardless of every later sample.
pub proof fn lemma_band_violation_fails(s: Rectangle, samples: Seq<Point>, v: int)
    requires
        0 <= v < samples.len(),
        rect_run(s, samples.take(v)).phase != RectPhase::Done,
        rect_run(s, samples.take(v)).phase != RectPhase::Failed,
        !leg_reached(rect_run(s, samples.take(v)), samples[v]),
        !leg_in_band(rect_run(s, samples.take(v)), samples[v]),
    ensures
        rect_run(s, samples).phase == RectPhase::Failed,
{
    let sv = rect_run(s, samples.take(v));
    lemma_rect_run_split(s, samples, v);
    let rest = samples.skip(v);
    assert(rest[0] == samples[v]);
    assert(rect_step(sv, samples[v]).phase == RectPhase::Failed);
    lemma_rect_run_absorbing(rect_step(sv, samples[v]), rest.skip(1));
}

} // verus!
