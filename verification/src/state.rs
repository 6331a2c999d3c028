use vstd::prelude::*;

use std::collections::HashMap;

use crate::history::Canvas;
use crate::tool::{Tool, ViewMode};

verus! {

broadcast use vstd::std_specs::hash::group_hash_axioms;

/// One stroke: the points it passes through, the brush it is drawn with
/// (colour and width, held by the caller), the tool that drew it and whether
/// it erases what lies beneath.
pub struct Stroke<P, B> {
    pub points: Vec<P>,
    pub brush: B,
    pub tool: Tool,
    pub is_eraser: bool,
}

/// How a stroke is painted.
#[derive(Clone, Copy, Debug, PartialEq, Eq, Structural)]
pub struct PaintPlan {
    /// Paint with the clearing operator (erase) instead of painting over.
    pub clear: bool,
    /// Paint at half opacity.
    pub translucent: bool,
    /// Paint with a dash pattern.
    pub dashed: bool,
}

impl<P, B> Stroke<P, B> {
    /// Strokes of fewer than two points are not painted.
    pub open spec fn spec_paint_plan(&self) -> Option<PaintPlan> {
        if self.points.len() < 2 {
            None
        } else {
            Some(
                PaintPlan {
                    clear: self.is_eraser,
                    translucent: self.tool == Tool::Highlighter,
                    dashed: self.tool == Tool::DashedLine,
                },
            )
        }
    }

    /// How this stroke is painted, or `None` when it is too short to paint.
    pub fn paint_plan(&self) -> (r: Option<PaintPlan>)
        ensures
            r == self.spec_paint_plan(),
            r is None <==> self.points.len() < 2,
            r matches Some(plan) ==> {
                &&& plan.clear == self.is_eraser
                &&& plan.translucent == (self.tool == Tool::Highlighter)
                &&& plan.dashed == (self.tool == Tool::DashedLine)
            },
    {
        if self.points.len() < 2 {
            return None;
        }
        Some(
            PaintPlan {
                clear: self.is_eraser,
                translucent: matches!(self.tool, Tool::Highlighter),
                dashed: matches!(self.tool, Tool::DashedLine),
            },
        )
    }
}

/// Whether an event goes on to other handlers.
#[derive(Clone, Copy, Debug, PartialEq, Eq, Structural)]
pub enum Propagation {
    Proceed,
    Stop,
}

/// What handling a pointer or touch event asks of the windows.
pub struct EventResponse<P, B> {
    pub propagation: Propagation,
    /// Destroy the open popup window.
    pub close_popup: bool,
    /// Redraw the whole overlay.
    pub redraw: bool,
    /// A segment was added from this point, drawn with this brush: redraw the
    /// area it covers.
    pub damaged: Option<(P, B)>,
    /// A stroke was committed: paint the newest committed stroke onto the
    /// image of committed strokes.
    pub committed: bool,
}

/// The phases of a touch sequence; `Other` stands for any other touch event.
#[derive(Clone, Copy, Debug, PartialEq, Eq, Structural)]
pub enum TouchPhase {
    Begin,
    Update,
    End,
    Cancel,
    Other,
}

/// A touch event: its phase, the sequence it belongs to, where it happened,
/// and that point moved by a tenth of a unit on both axes.
pub struct TouchInput<P> {
    pub phase: TouchPhase,
    pub key: u32,
    pub pos: P,
    pub nudged: P,
}

/// What the overlay paints besides the strokes.
pub struct DrawPlan<P> {
    /// Fill the background and show the background image instead of the desktop.
    pub zoomed: bool,
    /// The straight-line preview is dashed.
    pub dashed_preview: bool,
    /// Where to show the eraser outline, if anywhere.
    pub eraser_cursor: Option<P>,
}

/// The state of the drawing overlay that the event handlers decide on.
/// Points (`P`) and brushes (`B`) are the caller's own values.
pub struct AppState<P, B> {
    /// Committed strokes, oldest first.
    pub strokes: Vec<Stroke<P, B>>,
    /// Undone strokes, the most recently undone last.
    pub undo_stack: Vec<Stroke<P, B>>,
    /// Strokes being drawn, keyed by pointer (0) or touch sequence.
    pub active_strokes: HashMap<u32, Stroke<P, B>>,
    pub tool: Tool,
    /// Pointer input goes through the overlay to the windows beneath.
    pub passthrough: bool,
    pub view_mode: ViewMode,
    /// Last pointer position seen with the eraser.
    pub cursor_pos: Option<P>,
    /// A touch sequence is erasing.
    pub touch_active: bool,
    /// Start of a straight line being drawn.
    pub line_start: Option<P>,
}

/// `after` is `before` with point `p` appended to the stroke under `seq`,
/// and `r` the point it was appended to with the stroke's brush; when there
/// is no such stroke or it has no point, nothing changes and `r` is `None`.
pub open spec fn extended_by<P, B>(
    before: Map<u32, Stroke<P, B>>,
    after: Map<u32, Stroke<P, B>>,
    seq: u32,
    p: P,
    r: Option<(P, B)>,
) -> bool {
    if before.contains_key(seq) && before[seq].points.len() > 0 {
        let s = before[seq];
        &&& after.contains_key(seq)
        &&& after == before.insert(seq, after[seq])
        &&& after[seq].points@ == s.points@.push(p)
        &&& after[seq].brush == s.brush
        &&& after[seq].tool == s.tool
        &&& after[seq].is_eraser == s.is_eraser
        &&& r == Some((s.points@.last(), s.brush))
    } else {
        &&& after == before
        &&& r is None
    }
}

impl<P, B> EventResponse<P, B> {
    pub open spec fn is(self, propagation: Propagation, close_popup: bool, redraw: bool, committed: bool) -> bool {
        &&& self.propagation == propagation
        &&& self.close_popup == close_popup
        &&& self.redraw == redraw
        &&& self.committed == committed
    }
}

impl<P, B> AppState<P, B> {
    /// The canvas that the committed, undone and active strokes make up.
    pub open spec fn model(&self) -> Canvas<Stroke<P, B>> {
        Canvas { done: self.strokes@, undone: self.undo_stack@, active: self.active_strokes@ }
    }

    /// Tool, mode and pointer bookkeeping are the same in both states.
    pub open spec fn settings_kept(&self, other: &Self) -> bool {
        &&& self.tool == other.tool
        &&& self.passthrough == other.passthrough
        &&& self.view_mode == other.view_mode
        &&& self.cursor_pos == other.cursor_pos
        &&& self.touch_active == other.touch_active
        &&& self.line_start == other.line_start
    }

    /// Tool, modes and line start are the same in both states.
    pub open spec fn modes_kept(&self, other: &Self) -> bool {
        &&& self.tool == other.tool
        &&& self.passthrough == other.passthrough
        &&& self.view_mode == other.view_mode
        &&& self.line_start == other.line_start
    }

    /// The stroke that the current tool starts at `start`: two points, the
    /// eraser brush with the eraser and the pen brush otherwise.
    pub open spec fn fresh_stroke(&self, s: Stroke<P, B>, start: P, nudged: P, pen: B, eraser: B) -> bool {
        &&& s.points@ == seq![start, nudged]
        &&& s.tool == self.tool
        &&& s.is_eraser == (self.tool == Tool::Eraser)
        &&& s.brush == (if self.tool == Tool::Eraser { eraser } else { pen })
    }

    /// `after` has begun under `seq` the stroke that `self` would start.
    pub open spec fn begun_in(&self, after: &Self, seq: u32, start: P, nudged: P, pen: B, eraser: B) -> bool {
        &&& after.active_strokes@.contains_key(seq)
        &&& self.fresh_stroke(after.active_strokes@[seq], start, nudged, pen, eraser)
        &&& after.model() == self.model().begin(seq, after.active_strokes@[seq])
    }

    pub open spec fn spec_draw_plan(&self) -> DrawPlan<P> {
        DrawPlan {
            zoomed: self.view_mode == ViewMode::Zoomed,
            dashed_preview: self.tool == Tool::DashedLine,
            eraser_cursor: if self.tool == Tool::Eraser { self.cursor_pos } else { None },
        }
    }
}

/// The canvas of a state is its committed strokes, its undone strokes and
/// its active strokes, as they stand.
pub proof fn lemma_model_is_fields<P, B>(st: AppState<P, B>)
    ensures
        st.model().done == st.strokes@,
        st.model().undone == st.undo_stack@,
        st.model().active == st.active_strokes@,
{
}

/// A stroke of two or more points is painted; it erases exactly when it is
/// an eraser stroke, is half transparent exactly when the highlighter drew it
/// and dashed exactly when the dashed-line tool drew it, however many points
/// it has. A shorter stroke is not painted.
pub proof fn lemma_paint_plan_follows_stroke<P, B>(s: Stroke<P, B>)
    ensures
        s.points.len() < 2 <==> s.spec_paint_plan() is None,
        s.points.len() >= 2 ==> s.spec_paint_plan()->0.clear == s.is_eraser,
        s.points.len() >= 2 ==> s.spec_paint_plan()->0.translucent == (s.tool
            == Tool::Highlighter),
        s.points.len() >= 2 ==> s.spec_paint_plan()->0.dashed == (s.tool == Tool::DashedLine),
{
}

/// The background is painted exactly in the zoomed view, whatever the tool;
/// the line preview is dashed exactly with the dashed-line tool; the eraser
/// outline is shown at the last cursor position exactly with the eraser.
pub proof fn lemma_draw_plan_follows_state<P, B>(st: AppState<P, B>)
    ensures
        st.spec_draw_plan().zoomed == (st.view_mode == ViewMode::Zoomed),
        st.spec_draw_plan().dashed_preview == (st.tool == Tool::DashedLine),
        st.tool == Tool::Eraser ==> st.spec_draw_plan().eraser_cursor == st.cursor_pos,
        st.tool != Tool::Eraser ==> st.spec_draw_plan().eraser_cursor is None,
{
}

/// A stroke started by the current tool erases exactly when that tool is the
/// eraser, carries the eraser brush exactly then and the pen brush otherwise,
/// records the tool, and consists of the start point and its nudged copy.
pub proof fn lemma_fresh_stroke_follows_tool<P, B>(
    st: AppState<P, B>,
    s: Stroke<P, B>,
    start: P,
    nudged: P,
    pen: B,
    eraser: B,
)
    requires
        st.fresh_stroke(s, start, nudged, pen, eraser),
    ensures
        s.is_eraser <==> st.tool == Tool::Eraser,
        st.tool == Tool::Eraser ==> s.brush == eraser,
        st.tool != Tool::Eraser ==> s.brush == pen,
        s.tool == st.tool,
        s.points@.len() == 2,
        s.points@[0] == start,
        s.points@[1] == nudged,
{
}

/// Appending through `extended_by` adds exactly the one point to the stroke
/// of that sequence, keeps its brush, tool and eraser flag, leaves every other
/// sequence alone and reports the point appended to; without a stroke with a
/// point under the sequence nothing changes and nothing is reported.
pub proof fn lemma_extended_by_appends_one_point<P, B>(
    before: Map<u32, Stroke<P, B>>,
    after: Map<u32, Stroke<P, B>>,
    seq: u32,
    p: P,
    r: Option<(P, B)>,
)
    requires
        extended_by(before, after, seq, p, r),
    ensures
        before.contains_key(seq) && before[seq].points.len() > 0 ==> {
            &&& after.contains_key(seq)
            &&& after[seq].points@.len() == before[seq].points@.len() + 1
            &&& after[seq].points@.drop_last() == before[seq].points@
            &&& after[seq].points@.last() == p
            &&& after[seq].brush == before[seq].brush
            &&& after[seq].tool == before[seq].tool
            &&& after[seq].is_eraser == before[seq].is_eraser
            &&& r == Some((before[seq].points@.last(), before[seq].brush))
        },
        !(before.contains_key(seq) && before[seq].points.len() > 0) ==> after == before && r is None,
        forall|k: u32|
            k != seq ==> (after.contains_key(k) == before.contains_key(k) && (before.contains_key(k)
                ==> after[k] == before[k])),
{
    if before.contains_key(seq) && before[seq].points.len() > 0 {
        assert(after[seq].points@.drop_last() =~= before[seq].points@);
    }
}

impl<P: Copy, B: Copy> AppState<P, B> {
    /// An empty canvas drawn with the pen, over the desktop, taking input.
    pub fn new() -> (r: Self)
        ensures
            r.model() == Canvas::<Stroke<P, B>>::empty(),
            r.strokes@.len() == 0,
            r.undo_stack@.len() == 0,
            r.active_strokes@.dom().len() == 0,
            r.tool == Tool::Pen,
            !r.passthrough,
            r.view_mode == ViewMode::Desktop,
            r.cursor_pos is None,
            !r.touch_active,
            r.line_start is None,
    {
        AppState {
            strokes: Vec::new(),
            undo_stack: Vec::new(),
            active_strokes: HashMap::new(),
            tool: Tool::Pen,
            passthrough: false,
            view_mode: ViewMode::Desktop,
            cursor_pos: None,
            touch_active: false,
            line_start: None,
        }
    }

    /// Starts a stroke of the current tool under `seq` at `start`, replacing
    /// any stroke that `seq` was drawing.
    pub fn begin_stroke(&mut self, seq: u32, start: P, nudged: P, pen: B, eraser: B)
        ensures
            old(self).begun_in(final(self), seq, start, nudged, pen, eraser),
            final(self).settings_kept(old(self)),
            final(self).active_strokes@.contains_key(seq),
            final(self).active_strokes@[seq].points@ == seq![start, nudged],
            final(self).active_strokes@[seq].tool == old(self).tool,
            final(self).active_strokes@[seq].is_eraser == (old(self).tool == Tool::Eraser),
            old(self).tool == Tool::Eraser ==> final(self).active_strokes@[seq].brush == eraser,
            old(self).tool != Tool::Eraser ==> final(self).active_strokes@[seq].brush == pen,
            final(self).active_strokes@ == old(self).active_strokes@.insert(
                seq,
                final(self).active_strokes@[seq],
            ),
            final(self).strokes@ == old(self).strokes@,
            final(self).undo_stack@ == old(self).undo_stack@,
    {
        let is_eraser = matches!(self.tool, Tool::Eraser);
        let brush = if is_eraser {
            eraser
        } else {
            pen
        };
        let mut points: Vec<P> = Vec::with_capacity(256);
        points.push(start);
        points.push(nudged);
        assert(points@ =~= seq![start, nudged]);
        let stroke = Stroke { points, brush, tool: self.tool, is_eraser };
        self.active_strokes.insert(seq, stroke);
    }

    /// Appends `p` to the stroke under `seq`; returns the point it was
    /// appended to and the stroke's brush, which bound the area to redraw.
    pub fn extend_stroke(&mut self, seq: u32, p: P) -> (r: Option<(P, B)>)
        ensures
            extended_by(old(self).active_strokes@, final(self).active_strokes@, seq, p, r),
            final(self).strokes@ == old(self).strokes@,
            final(self).undo_stack@ == old(self).undo_stack@,
            final(self).settings_kept(old(self)),
    {
        let ghost before = self.active_strokes@;
        match self.active_strokes.remove(&seq) {
            None => {
                assert(self.active_strokes@ =~= before);
                None
            },
            Some(mut stroke) => {
                let n = stroke.points.len();
                if n == 0 {
                    self.active_strokes.insert(seq, stroke);
                    assert(self.active_strokes@ =~= before);
                    None
                } else {
                    let last = stroke.points[n - 1];
                    let brush = stroke.brush;
                    stroke.points.push(p);
                    self.active_strokes.insert(seq, stroke);
                    assert(self.active_strokes@ =~= before.insert(seq, self.active_strokes@[seq]));
                    Some((last, brush))
                }
            },
        }
    }

    /// Finishes the stroke under `seq`: it is committed and the undone strokes
    /// are forgotten. Returns whether there was such a stroke (which the
    /// caller then paints onto the committed image).
    pub fn end_stroke(&mut self, seq: u32) -> (r: bool)
        ensures
            r == old(self).active_strokes@.contains_key(seq),
            final(self).model() == old(self).model().end(seq),
            final(self).settings_kept(old(self)),
            r ==> final(self).strokes@ == old(self).strokes@.push(old(self).active_strokes@[seq]),
            r ==> final(self).undo_stack@.len() == 0,
            r ==> final(self).active_strokes@ == old(self).active_strokes@.remove(seq),
            !r ==> final(self).strokes@ == old(self).strokes@,
            !r ==> final(self).undo_stack@ == old(self).undo_stack@,
            !r ==> final(self).active_strokes@ == old(self).active_strokes@,
    {
        let ghost before = self.active_strokes@;
        match self.active_strokes.remove(&seq) {
            Some(stroke) => {
                self.undo_stack.clear();
                self.strokes.push(stroke);
                true
            },
            None => {
                assert(self.active_strokes@ =~= before);
                false
            },
        }
    }

    /// Drops the stroke under `seq` without committing it.
    pub fn cancel_stroke(&mut self, seq: u32)
        ensures
            final(self).model() == old(self).model().cancel(seq),
            final(self).settings_kept(old(self)),
            final(self).active_strokes@ == old(self).active_strokes@.remove(seq),
            final(self).strokes@ == old(self).strokes@,
            final(self).undo_stack@ == old(self).undo_stack@,
    {
        self.active_strokes.remove(&seq);
    }

    /// Takes back the last committed stroke; returns whether there was one.
    pub fn undo(&mut self) -> (r: bool)
        ensures
            r == (old(self).strokes@.len() > 0),
            final(self).model() == old(self).model().undo(),
            final(self).settings_kept(old(self)),
            r ==> final(self).strokes@ == old(self).strokes@.drop_last(),
            r ==> final(self).undo_stack@ == old(self).undo_stack@.push(old(self).strokes@.last()),
            !r ==> final(self).strokes@ == old(self).strokes@,
            !r ==> final(self).undo_stack@ == old(self).undo_stack@,
            final(self).active_strokes@ == old(self).active_strokes@,
    {
        match self.strokes.pop() {
            Some(stroke) => {
                self.undo_stack.push(stroke);
                true
            },
            None => false,
        }
    }

    /// Brings back the most recently undone stroke; returns whether there was
    /// one (which the caller then paints onto the committed image).
    pub fn redo(&mut self) -> (r: bool)
        ensures
            r == (old(self).undo_stack@.len() > 0),
            final(self).model() == old(self).model().redo(),
            final(self).settings_kept(old(self)),
            r ==> final(self).undo_stack@ == old(self).undo_stack@.drop_last(),
            r ==> final(self).strokes@ == old(self).strokes@.push(old(self).undo_stack@.last()),
            !r ==> final(self).strokes@ == old(self).strokes@,
            !r ==> final(self).undo_stack@ == old(self).undo_stack@,
            final(self).active_strokes@ == old(self).active_strokes@,
    {
        match self.undo_stack.pop() {
            Some(stroke) => {
                self.strokes.push(stroke);
                true
            },
            None => false,
        }
    }

    /// Forgets every committed, undone and active stroke.
    pub fn clear(&mut self)
        ensures
            final(self).model() == old(self).model().clear(),
            final(self).settings_kept(old(self)),
            final(self).strokes@.len() == 0,
            final(self).undo_stack@.len() == 0,
            final(self).active_strokes@.dom().len() == 0,
    {
        self.strokes.clear();
        self.undo_stack.clear();
        self.active_strokes.clear();
    }

    /// Switches between drawing and letting input through; returns the new mode.
    pub fn toggle_passthrough(&mut self) -> (r: bool)
        ensures
            r == !old(self).passthrough,
            final(self).passthrough == r,
            final(self).model() == old(self).model(),
            final(self).tool == old(self).tool,
            final(self).view_mode == old(self).view_mode,
            final(self).cursor_pos == old(self).cursor_pos,
            final(self).touch_active == old(self).touch_active,
            final(self).line_start == old(self).line_start,
    {
        self.passthrough = !self.passthrough;
        self.passthrough
    }

    /// What to paint besides the strokes.
    pub fn draw_plan(&self) -> (r: DrawPlan<P>)
        ensures
            r == self.spec_draw_plan(),
            r.zoomed == (self.view_mode == ViewMode::Zoomed),
            r.dashed_preview == (self.tool == Tool::DashedLine),
            self.tool == Tool::Eraser ==> r.eraser_cursor == self.cursor_pos,
            self.tool != Tool::Eraser ==> r.eraser_cursor is None,
    {
        let is_eraser = matches!(self.tool, Tool::Eraser);
        DrawPlan {
            zoomed: matches!(self.view_mode, ViewMode::Zoomed),
            dashed_preview: matches!(self.tool, Tool::DashedLine),
            eraser_cursor: if is_eraser {
                self.cursor_pos
            } else {
                None
            },
        }
    }
}

} // verus!
