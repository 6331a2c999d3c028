//! The decisions of a screen-annotation overlay: the strokes drawn with the
//! pointer or with touches, their undo and redo history, what each input
//! event does to them, how each stroke is painted, and which popup of the
//! menu window is open. Points and brushes are the caller's own values.

pub mod events;
pub mod history;
pub mod popup;
pub mod state;
pub mod tool;

pub use events::POINTER_SEQ;
pub use history::Canvas;
pub use popup::{PopupKind, PopupState, Toggle};
pub use state::{
    AppState, DrawPlan, EventResponse, PaintPlan, Propagation, Stroke, TouchInput, TouchPhase,
};
pub use tool::{mode_label, Tool, ViewMode};
