# tmtcopen

A screen-annotation overlay for X11: draw with the mouse or with touches on a
transparent window above the desktop (or above a plain or image background),
with undo, redo, a pen, straight and dashed lines, a highlighter and an eraser.

- `src/` is the verified core. `state.rs` holds the strokes and their history,
  `events.rs` decides what each pointer and touch event does, `popup.rs` keeps
  track of the menu's popups, `tool.rs` the tools and labels, and `history.rs`
  the abstract canvas with the laws of undo, redo and commit.
- `app/` is the GTK program around it: windows, drawing with cairo, the
  configuration file, and the floating-point geometry.
- `tests/` exercises the core on concrete values.
