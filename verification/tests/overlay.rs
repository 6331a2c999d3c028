use tmtcopen::{
    mode_label, AppState, PaintPlan, PopupKind, PopupState, Propagation, Stroke, Toggle,
    TouchInput, TouchPhase, Tool, ViewMode, POINTER_SEQ,
};

type Pt = (i64, i64);
type State = AppState<Pt, u32>;

const PEN: u32 = 6;
const ERASER: u32 = 30;

fn nudge(p: Pt) -> Pt {
    (p.0 + 1, p.1 + 1)
}

fn begin(st: &mut State, seq: u32, p: Pt) {
    st.begin_stroke(seq, p, nudge(p), PEN, ERASER);
}

fn touch(phase: TouchPhase, key: u32, pos: Pt) -> Option<TouchInput<Pt>> {
    Some(TouchInput { phase, key, pos, nudged: nudge(pos) })
}

fn points(s: &Stroke<Pt, u32>) -> Vec<Pt> {
    s.points.clone()
}

#[test]
fn new_state_is_empty_pen_on_desktop() {
    let st = State::new();
    assert!(st.strokes.is_empty());
    assert!(st.undo_stack.is_empty());
    assert!(st.active_strokes.is_empty());
    assert_eq!(st.tool, Tool::Pen);
    assert!(!st.passthrough);
    assert_eq!(st.view_mode, ViewMode::Desktop);
    assert_eq!(st.cursor_pos, None);
    assert!(!st.touch_active);
    assert_eq!(st.line_start, None);
}

#[test]
fn begin_stroke_starts_two_point_pen_stroke() {
    let mut st = State::new();
    begin(&mut st, 7, (10, 20));
    let s = &st.active_strokes[&7];
    assert_eq!(points(s), vec![(10, 20), (11, 21)]);
    assert_eq!(s.brush, PEN);
    assert_eq!(s.tool, Tool::Pen);
    assert!(!s.is_eraser);
}

#[test]
fn eraser_stroke_takes_eraser_brush() {
    let mut st = State::new();
    st.tool = Tool::Eraser;
    begin(&mut st, 0, (1, 1));
    let s = &st.active_strokes[&0];
    assert_eq!(s.brush, ERASER);
    assert!(s.is_eraser);
    assert_eq!(s.tool, Tool::Eraser);
}

#[test]
fn begin_replaces_stroke_of_same_sequence() {
    let mut st = State::new();
    begin(&mut st, 3, (0, 0));
    st.extend_stroke(3, (5, 5));
    begin(&mut st, 3, (9, 9));
    assert_eq!(points(&st.active_strokes[&3]), vec![(9, 9), (10, 10)]);
    assert_eq!(st.active_strokes.len(), 1);
}

#[test]
fn extend_returns_previous_point_and_brush() {
    let mut st = State::new();
    begin(&mut st, 1, (0, 0));
    assert_eq!(st.extend_stroke(1, (4, 8)), Some(((1, 1), PEN)));
    assert_eq!(st.extend_stroke(1, (5, 9)), Some(((4, 8), PEN)));
    assert_eq!(points(&st.active_strokes[&1]), vec![(0, 0), (1, 1), (4, 8), (5, 9)]);
}

#[test]
fn extend_without_stroke_changes_nothing() {
    let mut st = State::new();
    begin(&mut st, 1, (0, 0));
    assert_eq!(st.extend_stroke(2, (4, 8)), None);
    assert_eq!(points(&st.active_strokes[&1]), vec![(0, 0), (1, 1)]);
    assert!(!st.active_strokes.contains_key(&2));
}

#[test]
fn extend_of_pointless_stroke_changes_nothing() {
    let mut st = State::new();
    st.active_strokes.insert(
        4,
        Stroke { points: Vec::new(), brush: PEN, tool: Tool::Pen, is_eraser: false },
    );
    assert_eq!(st.extend_stroke(4, (1, 1)), None);
    assert!(st.active_strokes[&4].points.is_empty());
}

#[test]
fn end_stroke_commits_and_forgets_undone() {
    let mut st = State::new();
    begin(&mut st, 0, (0, 0));
    assert!(st.end_stroke(0));
    begin(&mut st, 0, (5, 5));
    assert!(st.end_stroke(0));
    assert!(st.undo());
    assert_eq!(st.undo_stack.len(), 1);
    begin(&mut st, 0, (9, 9));
    assert!(st.end_stroke(0));
    assert!(st.undo_stack.is_empty());
    assert_eq!(st.strokes.len(), 2);
    assert_eq!(points(&st.strokes[1]), vec![(9, 9), (10, 10)]);
    assert!(st.active_strokes.is_empty());
    // redo right after a commit has nothing to bring back
    assert!(!st.redo());
}

#[test]
fn end_without_stroke_is_noop() {
    let mut st = State::new();
    begin(&mut st, 0, (0, 0));
    assert!(st.end_stroke(0));
    assert!(st.undo());
    assert!(!st.end_stroke(5));
    assert_eq!(st.undo_stack.len(), 1);
    assert!(st.strokes.is_empty());
}

#[test]
fn redo_reverts_undo() {
    let mut st = State::new();
    for i in 0..3 {
        begin(&mut st, 0, (i, i));
        st.end_stroke(0);
    }
    assert!(st.undo());
    assert_eq!(st.strokes.len(), 2);
    assert_eq!(points(&st.undo_stack[0]), vec![(2, 2), (3, 3)]);
    assert!(st.redo());
    assert_eq!(st.strokes.len(), 3);
    assert!(st.undo_stack.is_empty());
    assert_eq!(points(&st.strokes[2]), vec![(2, 2), (3, 3)]);
}

#[test]
fn undo_reverts_redo_and_keeps_timeline() {
    let mut st = State::new();
    for i in 0..3 {
        begin(&mut st, 0, (i, 0));
        st.end_stroke(0);
    }
    assert!(st.undo());
    assert!(st.undo());
    let timeline = |st: &State| {
        let mut t: Vec<Pt> = st.strokes.iter().map(|s| s.points[0]).collect();
        t.extend(st.undo_stack.iter().rev().map(|s| s.points[0]));
        t
    };
    let before = timeline(&st);
    assert_eq!(before, vec![(0, 0), (1, 0), (2, 0)]);
    assert!(st.redo());
    assert_eq!(timeline(&st), before);
    assert!(st.undo());
    assert_eq!(timeline(&st), before);
    assert_eq!(st.strokes.len(), 1);
    assert_eq!(st.undo_stack.len(), 2);
}

#[test]
fn undo_and_redo_on_empty_history_do_nothing() {
    let mut st = State::new();
    assert!(!st.undo());
    assert!(!st.redo());
    assert!(st.strokes.is_empty() && st.undo_stack.is_empty());
}

#[test]
fn clear_forgets_everything() {
    let mut st = State::new();
    begin(&mut st, 0, (0, 0));
    st.end_stroke(0);
    begin(&mut st, 0, (1, 1));
    st.end_stroke(0);
    st.undo();
    begin(&mut st, 9, (2, 2));
    st.clear();
    assert!(st.strokes.is_empty());
    assert!(st.undo_stack.is_empty());
    assert!(st.active_strokes.is_empty());
    assert!(!st.undo());
    assert!(!st.redo());
}

#[test]
fn cancel_drops_only_that_sequence() {
    let mut st = State::new();
    begin(&mut st, 1, (0, 0));
    begin(&mut st, 2, (5, 5));
    st.cancel_stroke(1);
    assert!(!st.active_strokes.contains_key(&1));
    assert_eq!(points(&st.active_strokes[&2]), vec![(5, 5), (6, 6)]);
    assert!(st.strokes.is_empty());
}

#[test]
fn paint_plan_follows_tool() {
    let mk = |tool: Tool, n: usize| Stroke {
        points: vec![(0i64, 0i64); n],
        brush: PEN,
        tool,
        is_eraser: tool == Tool::Eraser,
    };
    assert_eq!(mk(Tool::Pen, 1).paint_plan(), None);
    assert_eq!(mk(Tool::Pen, 0).paint_plan(), None);
    assert_eq!(
        mk(Tool::Pen, 2).paint_plan(),
        Some(PaintPlan { clear: false, translucent: false, dashed: false })
    );
    assert_eq!(
        mk(Tool::Highlighter, 3).paint_plan(),
        Some(PaintPlan { clear: false, translucent: true, dashed: false })
    );
    assert_eq!(
        mk(Tool::DashedLine, 2).paint_plan(),
        Some(PaintPlan { clear: false, translucent: false, dashed: true })
    );
    assert_eq!(
        mk(Tool::StraightLine, 2).paint_plan(),
        Some(PaintPlan { clear: false, translucent: false, dashed: false })
    );
    assert_eq!(
        mk(Tool::Eraser, 2).paint_plan(),
        Some(PaintPlan { clear: true, translucent: false, dashed: false })
    );
}

#[test]
fn mouse_press_move_release_commits_stroke() {
    let mut st = State::new();
    let mut popup = PopupState::new();
    let r = st.on_button_press(&mut popup, (10, 10), (11, 11), PEN, ERASER);
    assert_eq!(r.propagation, Propagation::Stop);
    assert!(r.redraw && !r.close_popup && r.damaged.is_none());
    let r = st.on_motion((20, 15));
    assert_eq!(r.propagation, Propagation::Stop);
    assert_eq!(r.damaged, Some(((11, 11), PEN)));
    assert!(!r.redraw);
    let r = st.on_button_release();
    assert_eq!(r.propagation, Propagation::Stop);
    assert!(r.redraw);
    assert_eq!(st.strokes.len(), 1);
    assert_eq!(points(&st.strokes[0]), vec![(10, 10), (11, 11), (20, 15)]);
    assert!(st.active_strokes.is_empty());
}

#[test]
fn press_with_open_popup_only_closes_it() {
    let mut st = State::new();
    let mut popup = PopupState::new();
    popup.toggle(PopupKind::Color);
    let r = st.on_button_press(&mut popup, (1, 1), (2, 2), PEN, ERASER);
    assert_eq!(r.propagation, Propagation::Stop);
    assert!(r.close_popup && !r.redraw);
    assert_eq!(popup, PopupState { window_open: false, source: None });
    assert!(st.active_strokes.is_empty());
}

#[test]
fn passthrough_lets_events_through() {
    let mut st = State::new();
    let mut popup = PopupState::new();
    assert!(st.toggle_passthrough());
    let r = st.on_button_press(&mut popup, (1, 1), (2, 2), PEN, ERASER);
    assert_eq!(r.propagation, Propagation::Proceed);
    assert!(!r.redraw && !r.close_popup);
    let r = st.on_motion((3, 3));
    assert_eq!(r.propagation, Propagation::Proceed);
    let r = st.on_touch(&mut popup, touch(TouchPhase::Begin, 5, (1, 1)), PEN, ERASER);
    assert_eq!(r.propagation, Propagation::Proceed);
    assert!(st.active_strokes.is_empty());
    assert!(!st.toggle_passthrough());
}

#[test]
fn motion_without_stroke_proceeds() {
    let mut st = State::new();
    let r = st.on_motion((3, 3));
    assert_eq!(r.propagation, Propagation::Proceed);
    assert!(r.damaged.is_none() && !r.redraw);
}

#[test]
fn straight_line_without_start_does_not_draw() {
    let mut st = State::new();
    let mut popup = PopupState::new();
    st.tool = Tool::StraightLine;
    st.on_button_press(&mut popup, (0, 0), (1, 1), PEN, ERASER);
    let r = st.on_motion((9, 9));
    assert_eq!(r.propagation, Propagation::Proceed);
    assert!(r.damaged.is_none());
    assert_eq!(points(&st.active_strokes[&POINTER_SEQ]), vec![(0, 0), (1, 1)]);
    st.line_start = Some((0, 0));
    let r = st.on_motion((9, 9));
    assert_eq!(r.propagation, Propagation::Stop);
    assert_eq!(r.damaged, Some(((1, 1), PEN)));
}

#[test]
fn eraser_tracks_cursor() {
    let mut st = State::new();
    let mut popup = PopupState::new();
    st.tool = Tool::Eraser;
    st.on_button_press(&mut popup, (4, 4), (5, 5), PEN, ERASER);
    assert_eq!(st.cursor_pos, Some((4, 4)));
    let r = st.on_motion((6, 7));
    assert!(r.redraw);
    assert_eq!(r.damaged, Some(((5, 5), ERASER)));
    assert_eq!(st.cursor_pos, Some((6, 7)));
    let plan = st.draw_plan();
    assert_eq!(plan.eraser_cursor, Some((6, 7)));
    assert!(!plan.zoomed && !plan.dashed_preview);
}

#[test]
fn draw_plan_hides_cursor_for_other_tools() {
    let mut st = State::new();
    st.cursor_pos = Some((1, 1));
    st.tool = Tool::DashedLine;
    st.view_mode = ViewMode::Zoomed;
    let plan = st.draw_plan();
    assert_eq!(plan.eraser_cursor, None);
    assert!(plan.zoomed && plan.dashed_preview);
}

#[test]
fn touches_draw_independent_strokes() {
    let mut st = State::new();
    let mut popup = PopupState::new();
    st.on_touch(&mut popup, touch(TouchPhase::Begin, 11, (0, 0)), PEN, ERASER);
    st.on_touch(&mut popup, touch(TouchPhase::Begin, 22, (50, 50)), PEN, ERASER);
    let r = st.on_touch(&mut popup, touch(TouchPhase::Update, 11, (3, 4)), PEN, ERASER);
    assert_eq!(r.propagation, Propagation::Stop);
    assert_eq!(r.damaged, Some(((1, 1), PEN)));
    assert!(!r.redraw);
    let r = st.on_touch(&mut popup, touch(TouchPhase::End, 22, (50, 50)), PEN, ERASER);
    assert!(r.redraw);
    assert_eq!(st.strokes.len(), 1);
    assert_eq!(points(&st.strokes[0]), vec![(50, 50), (51, 51)]);
    assert_eq!(points(&st.active_strokes[&11]), vec![(0, 0), (1, 1), (3, 4)]);
    let r = st.on_touch(&mut popup, touch(TouchPhase::Cancel, 11, (3, 4)), PEN, ERASER);
    assert!(r.redraw);
    assert!(st.active_strokes.is_empty());
    assert_eq!(st.strokes.len(), 1);
}

#[test]
fn touch_eraser_tracks_touch_activity() {
    let mut st = State::new();
    let mut popup = PopupState::new();
    st.tool = Tool::Eraser;
    st.on_touch(&mut popup, touch(TouchPhase::Begin, 1, (2, 2)), PEN, ERASER);
    assert!(st.touch_active);
    assert_eq!(st.cursor_pos, Some((2, 2)));
    let r = st.on_touch(&mut popup, touch(TouchPhase::Update, 1, (5, 5)), PEN, ERASER);
    assert!(r.redraw);
    assert_eq!(st.cursor_pos, Some((5, 5)));
    st.on_touch(&mut popup, touch(TouchPhase::End, 1, (5, 5)), PEN, ERASER);
    assert!(!st.touch_active);
    assert_eq!(st.strokes[0].brush, ERASER);
}

#[test]
fn other_and_missing_touches() {
    let mut st = State::new();
    let mut popup = PopupState::new();
    let r = st.on_touch(&mut popup, touch(TouchPhase::Other, 1, (2, 2)), PEN, ERASER);
    assert_eq!(r.propagation, Propagation::Stop);
    assert!(!r.redraw);
    let r = st.on_touch(&mut popup, None, PEN, ERASER);
    assert_eq!(r.propagation, Propagation::Proceed);
    assert!(st.active_strokes.is_empty());
}

#[test]
fn touch_with_open_popup_only_closes_it() {
    let mut st = State::new();
    let mut popup = PopupState::new();
    popup.toggle(PopupKind::Tool);
    let r = st.on_touch(&mut popup, touch(TouchPhase::Begin, 1, (2, 2)), PEN, ERASER);
    assert!(r.close_popup);
    assert_eq!(r.propagation, Propagation::Stop);
    assert!(!popup.window_open);
    assert!(st.active_strokes.is_empty());
}

#[test]
fn toggling_same_button_twice_closes_popup() {
    let mut popup = PopupState::new();
    let t = popup.toggle(PopupKind::Tool);
    assert_eq!(t, Toggle { destroy_existing: false, open_new: true });
    assert_eq!(popup, PopupState { window_open: true, source: Some(PopupKind::Tool) });
    let t = popup.toggle(PopupKind::Tool);
    assert_eq!(t, Toggle { destroy_existing: true, open_new: false });
    assert_eq!(popup, PopupState { window_open: false, source: None });
}

#[test]
fn other_button_replaces_popup() {
    let mut popup = PopupState::new();
    popup.toggle(PopupKind::Tool);
    let t = popup.toggle(PopupKind::Background);
    assert_eq!(t, Toggle { destroy_existing: true, open_new: true });
    assert_eq!(popup.source, Some(PopupKind::Background));
    assert!(popup.window_open);
}

#[test]
fn after_choosing_entry_same_button_opens_nothing() {
    let mut popup = PopupState::new();
    popup.toggle(PopupKind::Color);
    popup.entry_chosen();
    assert!(!popup.window_open);
    assert_eq!(popup.source, Some(PopupKind::Color));
    let t = popup.toggle(PopupKind::Color);
    assert_eq!(t, Toggle { destroy_existing: false, open_new: false });
    assert_eq!(popup, PopupState { window_open: false, source: None });
}

#[test]
fn focus_loss_closes_and_forgets() {
    let mut popup = PopupState::new();
    popup.toggle(PopupKind::Background);
    popup.focus_lost();
    assert_eq!(popup, PopupState { window_open: false, source: None });
    assert!(!popup.dismiss_for_canvas());
}

#[test]
fn tool_and_mode_labels() {
    assert_eq!(Tool::Pen.label(), "Kalem");
    assert_eq!(Tool::StraightLine.label(), "Düz Çizgi");
    assert_eq!(Tool::DashedLine.label(), "Kesikli Çizgi");
    assert_eq!(Tool::Highlighter.label(), "Highlighter");
    assert_eq!(Tool::Eraser.label(), "Silgi");
    assert_eq!(mode_label(true), "Mod: Tıklama");
    assert_eq!(mode_label(false), "Mod: Çizim");
}
