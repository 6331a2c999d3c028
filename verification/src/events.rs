use vstd::prelude::*;

use crate::popup::PopupState;
use crate::state::{extended_by, AppState, EventResponse, Propagation, TouchInput, TouchPhase};
use crate::tool::Tool;

verus! {

/// The pointer always draws under sequence 0; touches draw under their own key.
pub const POINTER_SEQ: u32 = 0;

/// Pointer motion draws with the straight-line tool exactly once the line has
/// a start, and with every other tool exactly while the pointer has a stroke.
pub proof fn lemma_pointer_drawing_by_tool<P: Copy, B: Copy>(st: AppState<P, B>)
    ensures
        st.tool == Tool::StraightLine ==> (st.pointer_drawing() <==> st.line_start is Some),
        st.tool != Tool::StraightLine ==> (st.pointer_drawing() <==> st.active_strokes@.contains_key(
            POINTER_SEQ,
        )),
{
}

/// A response `is` what its four flags say, and nothing else.
pub proof fn lemma_response_is_its_flags<P, B>(
    r: EventResponse<P, B>,
    propagation: Propagation,
    close_popup: bool,
    redraw: bool,
    committed: bool,
)
    ensures
        r.is(propagation, close_popup, redraw, committed) <==> (r.propagation == propagation
            && r.close_popup == close_popup && r.redraw == redraw && r.committed == committed),
{
}

/// States whose settings are kept agree on tool, modes and pointer
/// bookkeeping; states whose modes are kept agree on tool, modes and line start.
pub proof fn lemma_kept_fields<P, B>(a: AppState<P, B>, b: AppState<P, B>)
    ensures
        a.settings_kept(&b) <==> (a.tool == b.tool && a.passthrough == b.passthrough && a.view_mode
            == b.view_mode && a.cursor_pos == b.cursor_pos && a.touch_active == b.touch_active
            && a.line_start == b.line_start),
        a.modes_kept(&b) <==> (a.tool == b.tool && a.passthrough == b.passthrough && a.view_mode
            == b.view_mode && a.line_start == b.line_start),
{
}

impl<P: Copy, B: Copy> AppState<P, B> {
    /// A mouse button went down on the overlay at `pos`.
    ///
    /// An open popup is closed and the press is used up; with input passing
    /// through the press goes on; otherwise the current tool starts a stroke
    /// under the pointer's sequence (the eraser also tracks the cursor).
    pub fn on_button_press(
        &mut self,
        popup: &mut PopupState,
        pos: P,
        nudged: P,
        pen: B,
        eraser: B,
    ) -> (r: EventResponse<P, B>)
        ensures
            old(popup).window_open ==> {
                &&& *final(popup) == PopupState::closed()
                &&& *final(self) == *old(self)
                &&& r.is(Propagation::Stop, true, false, false)
                &&& r.damaged is None
            },
            !old(popup).window_open ==> *final(popup) == *old(popup),
            !old(popup).window_open && old(self).passthrough ==> {
                &&& *final(self) == *old(self)
                &&& r.is(Propagation::Proceed, false, false, false)
                &&& r.damaged is None
            },
            !old(popup).window_open && !old(self).passthrough ==> {
                &&& old(self).begun_in(final(self), POINTER_SEQ, pos, nudged, pen, eraser)
                &&& final(self).modes_kept(old(self))
                &&& final(self).touch_active == old(self).touch_active
                &&& final(self).cursor_pos == (if old(self).tool == Tool::Eraser {
                    Some(pos)
                } else {
                    old(self).cursor_pos
                })
                &&& r.is(Propagation::Stop, false, true, false)
                &&& r.damaged is None
            },
    {
        if popup.dismiss_for_canvas() {
            return EventResponse {
                propagation: Propagation::Stop,
                close_popup: true,
                redraw: false,
                damaged: None,
                committed: false,
            };
        }
        if self.passthrough {
            return EventResponse {
                propagation: Propagation::Proceed,
                close_popup: false,
                redraw: false,
                damaged: None,
                committed: false,
            };
        }
        if matches!(self.tool, Tool::Eraser) {
            self.cursor_pos = Some(pos);
        }
        self.begin_stroke(POINTER_SEQ, pos, nudged, pen, eraser);
        EventResponse {
            propagation: Propagation::Stop,
            close_popup: false,
            redraw: true,
            damaged: None,
            committed: false,
        }
    }

    /// Whether pointer motion draws: the straight-line tool only once a line
    /// has a start, every other tool while the pointer has a stroke.
    pub open spec fn pointer_drawing(&self) -> bool {
        if self.tool == Tool::StraightLine {
            self.line_start is Some
        } else {
            self.active_strokes@.contains_key(POINTER_SEQ)
        }
    }

    /// The pointer moved over the overlay to `pos`.
    ///
    /// With input passing through nothing happens; the eraser tracks the
    /// cursor; while drawing, the pointer's stroke is extended to `pos`.
    pub fn on_motion(&mut self, pos: P) -> (r: EventResponse<P, B>)
        ensures
            old(self).passthrough ==> {
                &&& *final(self) == *old(self)
                &&& r.is(Propagation::Proceed, false, false, false)
                &&& r.damaged is None
            },
            !old(self).passthrough ==> {
                &&& final(self).modes_kept(old(self))
                &&& final(self).touch_active == old(self).touch_active
                &&& final(self).cursor_pos == (if old(self).tool == Tool::Eraser {
                    Some(pos)
                } else {
                    old(self).cursor_pos
                })
                &&& !r.close_popup
                &&& !r.committed
                &&& r.redraw == (old(self).tool == Tool::Eraser)
                &&& final(self).strokes@ == old(self).strokes@
                &&& final(self).undo_stack@ == old(self).undo_stack@
                &&& old(self).pointer_drawing() ==> {
                    &&& r.propagation == Propagation::Stop
                    &&& extended_by(
                        old(self).active_strokes@,
                        final(self).active_strokes@,
                        POINTER_SEQ,
                        pos,
                        r.damaged,
                    )
                }
                &&& !old(self).pointer_drawing() ==> {
                    &&& r.propagation == Propagation::Proceed
                    &&& final(self).active_strokes@ == old(self).active_strokes@
                    &&& r.damaged is None
                }
            },
            !old(self).passthrough && old(self).tool != Tool::StraightLine
                && old(self).active_strokes@.contains_key(POINTER_SEQ) ==> {
                &&& r.propagation == Propagation::Stop
                &&& extended_by(
                    old(self).active_strokes@,
                    final(self).active_strokes@,
                    POINTER_SEQ,
                    pos,
                    r.damaged,
                )
            },
            !old(self).passthrough && old(self).tool != Tool::StraightLine
                && !old(self).active_strokes@.contains_key(POINTER_SEQ) ==> {
                &&& r.propagation == Propagation::Proceed
                &&& final(self).active_strokes@ == old(self).active_strokes@
                &&& r.damaged is None
            },
            !old(self).passthrough && old(self).tool == Tool::StraightLine ==> {
                &&& (old(self).line_start is Some) == (r.propagation == Propagation::Stop)
                &&& old(self).line_start is None ==> final(self).active_strokes@ == old(
                    self,
                ).active_strokes@
            },
    {
        if self.passthrough {
            return EventResponse {
                propagation: Propagation::Proceed,
                close_popup: false,
                redraw: false,
                damaged: None,
                committed: false,
            };
        }
        let mut redraw = false;
        if matches!(self.tool, Tool::Eraser) {
            self.cursor_pos = Some(pos);
            redraw = true;
        }
        if matches!(self.tool, Tool::StraightLine) {
            if self.line_start.is_some() {
                let damaged = self.extend_stroke(POINTER_SEQ, pos);
                return EventResponse {
                    propagation: Propagation::Stop,
                    close_popup: false,
                    redraw,
                    damaged,
                    committed: false,
                };
            }
            return EventResponse {
                propagation: Propagation::Proceed,
                close_popup: false,
                redraw,
                damaged: None,
                committed: false,
            };
        }
        if !self.active_strokes.contains_key(&POINTER_SEQ) {
            return EventResponse {
                propagation: Propagation::Proceed,
                close_popup: false,
                redraw,
                damaged: None,
                committed: false,
            };
        }
        let damaged = self.extend_stroke(POINTER_SEQ, pos);
        EventResponse {
            propagation: Propagation::Stop,
            close_popup: false,
            redraw,
            damaged,
            committed: false,
        }
    }

    /// A mouse button was released: the pointer's stroke, if any, is committed.
    pub fn on_button_release(&mut self) -> (r: EventResponse<P, B>)
        ensures
            final(self).model() == old(self).model().end(POINTER_SEQ),
            final(self).settings_kept(old(self)),
            r.is(
                Propagation::Stop,
                false,
                true,
                old(self).active_strokes@.contains_key(POINTER_SEQ),
            ),
            r.damaged is None,
    {
        let committed = self.end_stroke(POINTER_SEQ);
        EventResponse {
            propagation: Propagation::Stop,
            close_popup: false,
            redraw: true,
            damaged: None,
            committed,
        }
    }

    /// A touch event reached the overlay; `touch` is `None` for an event that
    /// carries no touch.
    ///
    /// An open popup is closed and the event used up; with input passing
    /// through, or without a touch, the event goes on. Otherwise a touch
    /// begins, extends, commits or drops the stroke under its key.
    pub fn on_touch(
        &mut self,
        popup: &mut PopupState,
        touch: Option<TouchInput<P>>,
        pen: B,
        eraser: B,
    ) -> (r: EventResponse<P, B>)
        ensures
            old(popup).window_open ==> {
                &&& *final(popup) == PopupState::closed()
                &&& *final(self) == *old(self)
                &&& r.is(Propagation::Stop, true, false, false)
                &&& r.damaged is None
            },
            !old(popup).window_open ==> *final(popup) == *old(popup),
            !old(popup).window_open && (old(self).passthrough || touch is None) ==> {
                &&& *final(self) == *old(self)
                &&& r.is(Propagation::Proceed, false, false, false)
                &&& r.damaged is None
            },
            !old(popup).window_open && !old(self).passthrough && touch is Some ==> {
                let t = touch->0;
                let erasing = old(self).tool == Tool::Eraser;
                &&& r.propagation == Propagation::Stop
                &&& !r.close_popup
                &&& final(self).modes_kept(old(self))
                &&& match t.phase {
                    TouchPhase::Begin => {
                        &&& old(self).begun_in(final(self), t.key, t.pos, t.nudged, pen, eraser)
                        &&& final(self).cursor_pos == (if erasing {
                            Some(t.pos)
                        } else {
                            old(self).cursor_pos
                        })
                        &&& final(self).touch_active == (erasing || old(self).touch_active)
                        &&& r.redraw
                        &&& !r.committed
                        &&& r.damaged is None
                    },
                    TouchPhase::Update => {
                        let tracked_cursor = erasing && old(self).touch_active;
                        &&& final(self).cursor_pos == (if tracked_cursor {
                            Some(t.pos)
                        } else {
                            old(self).cursor_pos
                        })
                        &&& final(self).touch_active == old(self).touch_active
                        &&& r.redraw == tracked_cursor
                        &&& !r.committed
                        &&& final(self).strokes@ == old(self).strokes@
                        &&& final(self).undo_stack@ == old(self).undo_stack@
                        &&& extended_by(
                            old(self).active_strokes@,
                            final(self).active_strokes@,
                            t.key,
                            t.pos,
                            r.damaged,
                        )
                    },
                    TouchPhase::End => {
                        &&& final(self).model() == old(self).model().end(t.key)
                        &&& final(self).cursor_pos == old(self).cursor_pos
                        &&& final(self).touch_active == (!erasing && old(self).touch_active)
                        &&& r.redraw
                        &&& r.committed == old(self).active_strokes@.contains_key(t.key)
                        &&& r.damaged is None
                    },
                    TouchPhase::Cancel => {
                        &&& final(self).model() == old(self).model().cancel(t.key)
                        &&& final(self).cursor_pos == old(self).cursor_pos
                        &&& final(self).touch_active == (!erasing && old(self).touch_active)
                        &&& r.redraw
                        &&& !r.committed
                        &&& r.damaged is None
                    },
                    TouchPhase::Other => {
                        &&& *final(self) == *old(self)
                        &&& !r.redraw
                        &&& !r.committed
                        &&& r.damaged is None
                    },
                }
            },
    {
        if popup.dismiss_for_canvas() {
            return EventResponse {
                propagation: Propagation::Stop,
                close_popup: true,
                redraw: false,
                damaged: None,
                committed: false,
            };
        }
        if self.passthrough {
            return EventResponse {
                propagation: Propagation::Proceed,
                close_popup: false,
                redraw: false,
                damaged: None,
                committed: false,
            };
        }
        let t = match touch {
            Some(t) => t,
            None => {
                return EventResponse {
                    propagation: Propagation::Proceed,
                    close_popup: false,
                    redraw: false,
                    damaged: None,
                    committed: false,
                };
            },
        };
        let erasing = matches!(self.tool, Tool::Eraser);
        match t.phase {
            TouchPhase::Begin => {
                if erasing {
                    self.cursor_pos = Some(t.pos);
                    self.touch_active = true;
                }
                self.begin_stroke(t.key, t.pos, t.nudged, pen, eraser);
                EventResponse {
                    propagation: Propagation::Stop,
                    close_popup: false,
                    redraw: true,
                    damaged: None,
                    committed: false,
                }
            },
            TouchPhase::Update => {
                let mut redraw = false;
                if erasing && self.touch_active {
                    self.cursor_pos = Some(t.pos);
                    redraw = true;
                }
                let damaged = self.extend_stroke(t.key, t.pos);
                EventResponse {
                    propagation: Propagation::Stop,
                    close_popup: false,
                    redraw,
                    damaged,
                    committed: false,
                }
            },
            TouchPhase::End => {
                if erasing {
                    self.touch_active = false;
                }
                let committed = self.end_stroke(t.key);
                EventResponse {
                    propagation: Propagation::Stop,
                    close_popup: false,
                    redraw: true,
                    damaged: None,
                    committed,
                }
            },
            TouchPhase::Cancel => {
                if erasing {
                    self.touch_active = false;
                }
                self.cancel_stroke(t.key);
                EventResponse {
                    propagation: Propagation::Stop,
                    close_popup: false,
                    redraw: true,
                    damaged: None,
                    committed: false,
                }
            },
            TouchPhase::Other => {
                EventResponse {
                    propagation: Propagation::Stop,
                    close_popup: false,
                    redraw: false,
                    damaged: None,
                    committed: false,
                }
            },
        }
    }
}

} // verus!
