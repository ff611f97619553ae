//! The render scheduler: a dirty-flag-gated redraw trigger, the
//! distance-based style selection, and the epoch-tagged delayed-message
//! cancellation pattern for transient status messages.
//!
//! `tick` does nothing unless something marked the state dirty, so it is
//! safe to call every frame. When it fires it walks every stroke's
//! consecutive point pairs, styles each by its length, and emits the
//! styled segment list plus debug markers for the rendering backend.
//!
//! A delayed message carries the epoch it was shown under; when its timer
//! fires, the message is cleared only if that epoch is still current —
//! a newer message silently discards the stale callback. There is no true
//! timer cancellation: staleness is detected after the fact, and the
//! stale callback becomes a no-op.

use vstd::prelude::*;
use crate::geom::{dist_sq, dist_sq_exec, Point};
use crate::stroke::Drawing;

verus! {

/// Segments shorter than this many device pixels (fixed-point: 30 pixels)
/// are highlighted to signal slow or dense sampling.
pub const STYLE_DISTANCE_THRESHOLD: i64 = 30_000;

/// Radius of the debug marker drawn at every stroke point, in fixed-point
/// device pixels (5 pixels).
pub const MARKER_RADIUS: i64 = 5_000;

/// How a segment is drawn.
#[derive(Clone, Copy, Debug, PartialEq, Eq, Structural)]
pub enum Style {
    /// The normal stroke color.
    Default,
    /// The close-pair color: endpoints nearer than the style threshold.
    Highlighted,
}

/// The style of the segment from `a` to `b`: highlighted exactly when the
/// endpoint distance is strictly below the threshold; a distance of
/// exactly the threshold renders the default style.
pub open spec fn style_for_spec(a: Point, b: Point) -> Style {
    if dist_sq(a, b) < (STYLE_DISTANCE_THRESHOLD as int) * (STYLE_DISTANCE_THRESHOLD as int) {
        Style::Highlighted
    } else {
        Style::Default
    }
}

/// Pick the style for one segment.
pub fn style_for_pair(a: Point, b: Point) -> (r: Style)
    requires
        a.wf(),
        b.wf(),
    ensures
        r == style_for_spec(a, b),
        r == Style::Highlighted <==> dist_sq(a, b) < (STYLE_DISTANCE_THRESHOLD as int)
            * (STYLE_DISTANCE_THRESHOLD as int),
{
    let t2: i64 = STYLE_DISTANCE_THRESHOLD * STYLE_DISTANCE_THRESHOLD;
    if dist_sq_exec(a, b) < t2 {
        Style::Highlighted
    } else {
        Style::Default
    }
}

/// One styled polyline segment of the draw list.
#[derive(Clone, Copy, Debug, PartialEq, Eq, Structural)]
pub struct StyledSegment {
    pub from: Point,
    pub to: Point,
    pub style: Style,
}

/// What one tick hands to the rendering backend: the styled segments of
/// every stroke, in order, and a debug marker at every point.
#[derive(Clone, Debug)]
pub struct RenderCommand {
    pub segments: Vec<StyledSegment>,
    pub markers: Vec<Point>,
}

/// The styled segments of one stroke: one per consecutive point pair.
pub open spec fn stroke_segments_spec(points: Seq<Point>) -> Seq<StyledSegment>
    decreases points.len(),
{
    if points.len() < 2 {
        Seq::empty()
    } else {
        stroke_segments_spec(points.drop_last()) + seq![
            StyledSegment {
                from: points[points.len() - 2],
                to: points[points.len() - 1],
                style: style_for_spec(points[points.len() - 2], points[points.len() - 1]),
            },
        ]
    }
}

/// The styled segments of a whole drawing, stroke by stroke.
pub open spec fn drawing_segments_spec(strokes: Seq<Seq<Point>>) -> Seq<StyledSegment>
    decreases strokes.len(),
{
    if strokes.len() == 0 {
        Seq::empty()
    } else {
        drawing_segments_spec(strokes.drop_last()) + stroke_segments_spec(strokes.last())
    }
}

/// Every point of every stroke, in order: where the debug markers go.
pub open spec fn drawing_markers_spec(strokes: Seq<Seq<Point>>) -> Seq<Point>
    decreases strokes.len(),
{
    if strokes.len() == 0 {
        Seq::empty()
    } else {
        drawing_markers_spec(strokes.drop_last()) + strokes.last()
    }
}

/// Build the draw list for one stroke, appending onto `segments`.
fn push_stroke_segments(segments: &mut Vec<StyledSegment>, points: &Vec<Point>)
    requires
        forall|i: int| 0 <= i < points@.len() ==> (#[trigger] points@[i]).wf(),
    ensures
        final(segments)@ == old(segments)@ + stroke_segments_spec(points@),
{
    let ghost base = segments@;
    let n = points.len();
    if n < 2 {
        proof {
            assert(base + stroke_segments_spec(points@) =~= base);
        }
        return ;
    }
    let mut i: usize = 1;
    proof {
        assert(points@.take(1).len() < 2);
        assert(base + stroke_segments_spec(points@.take(1)) =~= base);
    }
    while i < n
        invariant
            forall|j: int| 0 <= j < points@.len() ==> (#[trigger] points@[j]).wf(),
            1 <= i <= n,
            n == points@.len(),
            segments@ == base + stroke_segments_spec(points@.take(i as int)),
        decreases n - i,
    {
        let seg = StyledSegment {
            from: points[i - 1],
            to: points[i],
            style: style_for_pair(points[i - 1], points[i]),
        };
        segments.push(seg);
        proof {
            let t = points@.take(i as int + 1);
            assert(t.drop_last() =~= points@.take(i as int));
            assert(t[t.len() - 2] == points@[i as int - 1]);
            assert(t[t.len() - 1] == points@[i as int]);
            assert(base + stroke_segments_spec(t) =~= (base + stroke_segments_spec(
                points@.take(i as int),
            )) + seq![seg]);
        }
        i = i + 1;
    }
    proof {
        assert(points@.take(n as int) =~= points@);
    }
}

/// Build the whole draw list: every stroke's styled segments, and a debug
/// marker at every point.
pub fn build_render_command(drawing: &Drawing) -> (r: RenderCommand)
    requires
        drawing.wf(),
    ensures
        r.segments@ == drawing_segments_spec(drawing.strokes_seq()),
        r.markers@ == drawing_markers_spec(drawing.strokes_seq()),
{
    let ghost ss = drawing.strokes_seq();
    let mut segments: Vec<StyledSegment> = Vec::new();
    let mut markers: Vec<Point> = Vec::new();
    let mut i: usize = 0;
    proof {
        assert(segments@ =~= drawing_segments_spec(ss.take(0)));
        assert(markers@ =~= drawing_markers_spec(ss.take(0)));
    }
    while i < drawing.strokes.len()
        invariant
            drawing.wf(),
            ss == drawing.strokes_seq(),
            0 <= i <= drawing.strokes@.len(),
            ss.len() == drawing.strokes@.len(),
            segments@ == drawing_segments_spec(ss.take(i as int)),
            markers@ == drawing_markers_spec(ss.take(i as int)),
        decreases drawing.strokes@.len() - i,
    {
        let stroke = &drawing.strokes[i];
        let ghost seg_base = segments@;
        let ghost mark_base = markers@;
        push_stroke_segments(&mut segments, &stroke.points);
        let mut j: usize = 0;
        while j < stroke.points.len()
            invariant
                0 <= j <= stroke.points@.len(),
                markers@ == mark_base + stroke.points@.take(j as int),
            decreases stroke.points@.len() - j,
        {
            markers.push(stroke.points[j]);
            proof {
                assert(stroke.points@.take(j as int + 1) =~= stroke.points@.take(j as int)
                    + seq![stroke.points@[j as int]]);
                assert(mark_base + stroke.points@.take(j as int + 1) =~= (mark_base
                    + stroke.points@.take(j as int)) + seq![stroke.points@[j as int]]);
            }
            j = j + 1;
        }
        proof {
            let t = ss.take(i as int + 1);
            assert(t.drop_last() =~= ss.take(i as int));
            assert(t.last() == ss[i as int]);
            assert(ss[i as int] == stroke.points@);
            assert(stroke.points@.take(stroke.points@.len() as int) =~= stroke.points@);
            assert(drawing_segments_spec(t) == drawing_segments_spec(ss.take(i as int))
                + stroke_segments_spec(stroke.points@));
            assert(drawing_markers_spec(t) == drawing_markers_spec(ss.take(i as int))
                + stroke.points@);
        }
        i = i + 1;
    }
    proof {
        assert(ss.take(ss.len() as int) =~= ss);
    }
    RenderCommand { segments, markers }
}

/// The scheduler's state, as contracts see it.
pub struct SchedulerView {
    pub dirty: bool,
    pub message_epoch: u32,
    pub message: Seq<char>,
}

/// The token a delayed callback carries back: the epoch its message was
/// shown under, and how long the host should wait before delivering it.
#[derive(Clone, Copy, Debug, PartialEq, Eq, Structural)]
pub struct MessageToken {
    pub epoch: u32,
    pub ttl_millis: u64,
}

/// Dirty flag, message epoch and the current transient message. The
/// host calls `tick` every frame and delivers expired message tokens
/// back into `expire_message` from its timer facility.
#[derive(Clone, Debug)]
pub struct RenderScheduler {
    pub dirty: bool,
    pub message_epoch: u32,
    pub message: String,
}

/// What showing a message does to the scheduler: an empty message is
/// ignored; otherwise the message is stored, the epoch advances, and a
/// redraw is due.
pub open spec fn show_message_model(s: SchedulerView, text: Seq<char>) -> SchedulerView {
    if text.len() == 0 {
        s
    } else {
        SchedulerView { dirty: true, message_epoch: (s.message_epoch + 1) as u32, message: text }
    }
}

/// What an expiring token does: it clears the message only if its epoch
/// is still the current one; a stale token changes nothing.
pub open spec fn expire_message_model(s: SchedulerView, epoch: u32) -> SchedulerView {
    if epoch == s.message_epoch {
        SchedulerView { dirty: true, message: Seq::empty(), ..s }
    } else {
        s
    }
}

impl View for RenderScheduler {
    type V = SchedulerView;

    open spec fn view(&self) -> SchedulerView {
        SchedulerView {
            dirty: self.dirty,
            message_epoch: self.message_epoch,
            message: self.message@,
        }
    }
}

impl RenderScheduler {
    /// A fresh scheduler: dirty (the first frame must draw), epoch zero,
    /// no message.
    pub fn new() -> (r: RenderScheduler)
        ensures
            r@.dirty,
            r@.message_epoch == 0,
            r@.message == Seq::<char>::empty(),
    {
        let r = RenderScheduler { dirty: true, message_epoch: 0, message: String::new() };
        proof {
            assert(r.message@ =~= Seq::<char>::empty());
        }
        r
    }

    /// Note that the drawing, the camera or the viewport changed: the
    /// next tick must redraw.
    pub fn mark_dirty(&mut self)
        ensures
            final(self)@ == (SchedulerView { dirty: true, ..old(self)@ }),
    {
        self.dirty = true;
    }

    /// If nothing is dirty, do nothing — safe to call every frame.
    /// Otherwise clear the flag and emit the draw list for `drawing`.
    pub fn tick(&mut self, drawing: &Drawing) -> (r: Option<RenderCommand>)
        requires
            drawing.wf(),
        ensures
            !old(self)@.dirty ==> r is None && *final(self) == *old(self),
            old(self)@.dirty ==> {
                &&& final(self)@ == (SchedulerView { dirty: false, ..old(self)@ })
                &&& r matches Option::Some(cmd) && cmd.segments@ == drawing_segments_spec(
                    drawing.strokes_seq(),
                ) && cmd.markers@ == drawing_markers_spec(drawing.strokes_seq())
            },
    {
        if !self.dirty {
            return Option::None;
        }
        self.dirty = false;
        Option::Some(build_render_command(drawing))
    }

    /// Show a transient status message. A non-empty message supersedes
    /// whatever was showing, advances the epoch, and hands back the token
    /// the host must deliver to `expire_message` after `ttl_millis`; an
    /// empty message is ignored and schedules nothing.
    pub fn show_message(&mut self, text: String, ttl_millis: u64) -> (t: Option<MessageToken>)
        requires
            old(self)@.message_epoch < u32::MAX,
        ensures
            final(self)@ == show_message_model(old(self)@, text@),
            text@.len() == 0 ==> t is None,
            text@.len() > 0 ==> (t matches Option::Some(tok) && tok.epoch
                == final(self)@.message_epoch && tok.ttl_millis == ttl_millis),
    {
        if text.as_str().unicode_len() == 0 {
            return Option::None;
        }
        self.message = text;
        self.message_epoch = self.message_epoch + 1;
        self.dirty = true;
        Option::Some(MessageToken { epoch: self.message_epoch, ttl_millis })
    }

    /// Deliver a delayed message token. Clears the message only when the
    /// token's epoch is still current; a superseded token is silently
    /// discarded — cancellation by ignoring, not an error.
    pub fn expire_message(&mut self, token: MessageToken)
        ensures
            final(self)@ == expire_message_model(old(self)@, token.epoch),
    {
        if token.epoch == self.message_epoch {
            self.message = String::new();
            self.dirty = true;
            proof {
                assert(self.message@ =~= Seq::<char>::empty());
            }
        }
    }
}

/// Epoch cancellation: once a second message is shown, the first
/// message's delayed token is stale — delivering it leaves the newer
/// message untouched.
pub proof fn lemma_epoch_cancellation(s0: SchedulerView, first: Seq<char>, second: Seq<char>)
    requires
        s0.message_epoch < u32::MAX - 1,
        first.len() > 0,
        second.len() > 0,
    ensures
        ({
            let s1 = show_message_model(s0, first);
            let s2 = show_message_model(s1, second);
            expire_message_model(s2, s1.message_epoch) == s2 && s2.message == second
        }),
{
}

} // verus!
