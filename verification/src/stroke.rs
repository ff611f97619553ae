//! The in-memory model of one drawing: ordered strokes, each an ordered
//! point sequence, with the active-stroke invariant.
//!
//! At most the last stroke is unsealed (the "active" flag says whether it
//! is); all earlier strokes are sealed and never touched again. Empty
//! placeholder strokes are coalesced, never duplicated: `begin_stroke`
//! reuses an empty last stroke instead of pushing a second one, so no two
//! consecutive strokes are ever both empty.

use vstd::prelude::*;
use crate::geom::Point;

verus! {

/// The error of calling `append_point` with no stroke open: a programmer
/// error in the host integration, reported loudly, never recovered from
/// silently.
#[derive(Clone, Copy, Debug, PartialEq, Eq, Structural)]
pub struct InvariantViolation;

/// One continuous pointer-down-to-up path, as an ordered point sequence.
/// Points are appended strictly in temporal order.
#[derive(Clone, Debug)]
pub struct Stroke {
    pub points: Vec<Point>,
}

impl Stroke {
    /// All points in range.
    pub open spec fn wf(self) -> bool {
        forall|i: int| 0 <= i < self.points@.len() ==> (#[trigger] self.points@[i]).wf()
    }

    /// A fresh, empty stroke.
    pub fn new() -> (r: Stroke)
        ensures
            r.points@ =~= Seq::<Point>::empty(),
            r.wf(),
    {
        Stroke { points: Vec::new() }
    }
}

/// The full ordered collection of strokes on a surface.
#[derive(Clone, Debug)]
pub struct Drawing {
    pub strokes: Vec<Stroke>,
    /// Whether the last stroke is still open for appends. Every stroke
    /// before the last is sealed no matter what.
    pub active: bool,
}

impl Drawing {
    /// The drawing as a sequence of point sequences.
    pub open spec fn strokes_seq(self) -> Seq<Seq<Point>> {
        self.strokes@.map_values(|s: Stroke| s.points@)
    }

    /// Whether stroke `i` is sealed: every stroke but the last is, and the
    /// last is too once the drawing is no longer active.
    pub open spec fn is_sealed(self, i: int) -> bool {
        i < self.strokes@.len() - 1 || !self.active
    }

    /// The drawing invariant: an active drawing has a stroke to append to,
    /// every stroke but the last holds at least one point (so no two
    /// consecutive strokes are empty), and every point is in range.
    pub open spec fn wf(self) -> bool {
        &&& self.active ==> self.strokes@.len() > 0
        &&& forall|i: int|
            0 <= i < self.strokes@.len() - 1 ==> (#[trigger] self.strokes@[i]).points@.len() > 0
        &&& forall|i: int| 0 <= i < self.strokes@.len() ==> (#[trigger] self.strokes@[i]).wf()
    }

    /// No two consecutive strokes are both empty. Follows from `wf`: only
    /// the last stroke can be empty at all.
    pub open spec fn no_consecutive_empty(self) -> bool {
        forall|i: int|
            0 <= i < self.strokes_seq().len() - 1 ==> !((#[trigger] self.strokes_seq()[i]).len() == 0
                && self.strokes_seq()[i + 1].len() == 0)
    }

    /// A drawing that satisfies the invariant has no two consecutive empty
    /// strokes.
    pub proof fn lemma_wf_no_consecutive_empty(self)
        requires
            self.wf(),
        ensures
            self.no_consecutive_empty(),
    {
    }

    /// An empty drawing: no strokes, nothing active.
    pub fn new() -> (r: Drawing)
        ensures
            r.strokes_seq() =~= Seq::<Seq<Point>>::empty(),
            !r.active,
            r.wf(),
    {
        Drawing { strokes: Vec::new(), active: false }
    }

    /// The last stroke's last point, if any: the point new candidates are
    /// decimated against.
    pub fn last_point(&self) -> (r: Option<Point>)
        ensures
            r == last_point_spec(self.strokes_seq()),
    {
        if self.strokes.len() == 0 {
            Option::None
        } else {
            let s = &self.strokes[self.strokes.len() - 1];
            if s.points.len() == 0 {
                Option::None
            } else {
                Option::Some(s.points[s.points.len() - 1])
            }
        }
    }

    /// Open a stroke. If the last stroke is already empty it is reused as
    /// the active stroke (idempotent: calling twice without appending a
    /// point is a no-op the second time); otherwise the current stroke is
    /// sealed and a new empty one is appended.
    pub fn begin_stroke(&mut self)
        requires
            old(self).wf(),
        ensures
            final(self).wf(),
            final(self).active,
            final(self).strokes_seq() == begin_model(old(self).strokes_seq()),
    {
        let push_new: bool = if self.strokes.len() == 0 {
            true
        } else {
            self.strokes[self.strokes.len() - 1].points.len() > 0
        };
        if push_new {
            self.strokes.push(Stroke::new());
            proof {
                assert(self.strokes_seq() =~= old(self).strokes_seq().push(Seq::empty()));
            }
        } else {
            proof {
                assert(self.strokes_seq() =~= old(self).strokes_seq());
            }
        }
        self.active = true;
    }

    /// Append `p` to the active stroke. Fails with `InvariantViolation`,
    /// leaving the drawing unchanged, exactly when no stroke is open
    /// (none was begun, or the last was sealed).
    pub fn append_point(&mut self, p: Point) -> (r: Result<(), InvariantViolation>)
        requires
            old(self).wf(),
            p.wf(),
        ensures
            final(self).wf(),
            r is Ok <==> old(self).active,
            final(self).active == old(self).active,
            old(self).active ==> final(self).strokes_seq() == append_model(
                old(self).strokes_seq(),
                p,
            ),
            !old(self).active ==> final(self).strokes_seq() == old(self).strokes_seq(),
    {
        if !self.active {
            return Result::Err(InvariantViolation);
        }
        let n = self.strokes.len() - 1;
        let stroke = &mut self.strokes[n];
        stroke.points.push(p);
        proof {
            assert(final(stroke).points@ =~= old(self).strokes@[n as int].points@.push(p));
        }
        proof {
            assert(self.strokes_seq() =~= append_model(old(self).strokes_seq(), p));
        }
        Result::Ok(())
    }

    /// Seal the active stroke, if any: later appends must `begin_stroke`
    /// again first. The stored strokes are untouched.
    pub fn seal_active(&mut self)
        requires
            old(self).wf(),
        ensures
            final(self).wf(),
            !final(self).active,
            final(self).strokes_seq() == old(self).strokes_seq(),
    {
        self.active = false;
        proof {
            assert(self.strokes_seq() =~= old(self).strokes_seq());
        }
    }
}

/// The last point of the last stroke, if there is one.
pub open spec fn last_point_spec(strokes: Seq<Seq<Point>>) -> Option<Point> {
    if strokes.len() == 0 {
        Option::None
    } else {
        let s = strokes[strokes.len() - 1];
        if s.len() == 0 {
            Option::None
        } else {
            Option::Some(s[s.len() - 1])
        }
    }
}

/// What `begin_stroke` does to the stroke sequence: reuse an empty last
/// stroke, else append an empty one.
pub open spec fn begin_model(strokes: Seq<Seq<Point>>) -> Seq<Seq<Point>> {
    if strokes.len() > 0 && strokes[strokes.len() - 1].len() == 0 {
        strokes
    } else {
        strokes.push(Seq::empty())
    }
}

/// What a successful `append_point` does: the point lands at the end of
/// the last stroke.
pub open spec fn append_model(strokes: Seq<Seq<Point>>, p: Point) -> Seq<Seq<Point>> {
    strokes.update(strokes.len() - 1, strokes[strokes.len() - 1].push(p))
}

/// What a pointer-down does to the stored strokes: the active stroke is
/// sealed (no structural change), a stroke is begun, and the down
/// position becomes its first point.
pub open spec fn down_model(strokes: Seq<Seq<Point>>, p: Point) -> Seq<Seq<Point>> {
    append_model(begin_model(strokes), p)
}

/// A pointer press or release, as the stroke-boundary law sees it.
pub enum PointerPress {
    Down(Point),
    Up,
}

/// One press or release applied to the stored strokes: a down begins a
/// stroke holding its position, an up only seals and stores nothing new.
pub open spec fn press_step_model(strokes: Seq<Seq<Point>>, ev: PointerPress) -> Seq<Seq<Point>> {
    match ev {
        PointerPress::Down(p) => down_model(strokes, p),
        PointerPress::Up => strokes,
    }
}

/// A whole sequence of presses and releases applied in order.
pub open spec fn apply_presses_model(strokes: Seq<Seq<Point>>, evs: Seq<PointerPress>) -> Seq<
    Seq<Point>,
>
    decreases evs.len(),
{
    if evs.len() == 0 {
        strokes
    } else {
        apply_presses_model(press_step_model(strokes, evs[0]), evs.skip(1))
    }
}

/// How many of the events are downs.
pub open spec fn count_downs(evs: Seq<PointerPress>) -> nat
    decreases evs.len(),
{
    if evs.len() == 0 {
        0
    } else {
        (match evs[0] {
            PointerPress::Down(_) => 1nat,
            PointerPress::Up => 0nat,
        }) + count_downs(evs.skip(1))
    }
}

/// Every stored stroke holds at least one point.
pub open spec fn all_strokes_nonempty(strokes: Seq<Seq<Point>>) -> bool {
    forall|i: int| 0 <= i < strokes.len() ==> (#[trigger] strokes[i]).len() > 0
}

/// No two consecutive stored strokes are both empty.
pub open spec fn no_consecutive_empty_in(strokes: Seq<Seq<Point>>) -> bool {
    forall|i: int|
        0 <= i < strokes.len() - 1 ==> !((#[trigger] strokes[i]).len() == 0 && strokes[i
            + 1].len() == 0)
}

/// Applying presses to a drawing of nonempty strokes adds exactly one
/// stroke per down and keeps every stroke nonempty.
proof fn lemma_presses_counted(strokes: Seq<Seq<Point>>, evs: Seq<PointerPress>)
    requires
        all_strokes_nonempty(strokes),
    ensures
        apply_presses_model(strokes, evs).len() == strokes.len() + count_downs(evs),
        all_strokes_nonempty(apply_presses_model(strokes, evs)),
    decreases evs.len(),
{
    if evs.len() == 0 {
    } else {
        let next = press_step_model(strokes, evs[0]);
        match evs[0] {
            PointerPress::Down(p) => {
                let begun = begin_model(strokes);
                assert(begun.len() == strokes.len() + 1);
                assert(next == append_model(begun, p));
                assert(next.len() == begun.len());
                assert(forall|i: int|
                    0 <= i < next.len() ==> (#[trigger] next[i]).len() > 0) by {
                    assert(next[next.len() - 1] == begun[begun.len() - 1].push(p));
                    assert(next[next.len() - 1].len() > 0);
                    assert(forall|i: int|
                        0 <= i < next.len() - 1 ==> next[i] == #[trigger] begun[i]);
                }
            },
            PointerPress::Up => {},
        }
        lemma_presses_counted(next, evs.skip(1));
    }
}

/// The stroke boundary law: starting from an empty drawing, any sequence
/// of pointer downs and ups leaves exactly one stroke per down, and no
/// two consecutive strokes are both empty (every stroke holds its down
/// position, so none is empty at all).
pub proof fn lemma_stroke_boundary(evs: Seq<PointerPress>)
    ensures
        apply_presses_model(Seq::empty(), evs).len() == count_downs(evs),
        no_consecutive_empty_in(apply_presses_model(Seq::empty(), evs)),
{
    lemma_presses_counted(Seq::empty(), evs);
}

} // verus!
