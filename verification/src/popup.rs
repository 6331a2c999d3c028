use vstd::prelude::*;

verus! {

/// The menu buttons that open a popup next to the menu window.
#[derive(Clone, Copy, Debug, PartialEq, Eq, Structural)]
pub enum PopupKind {
    Tool,
    Color,
    Background,
}

/// Which popup the menu last opened, and whether a popup window is open.
///
/// The two are tracked apart: choosing an entry in a popup closes its window
/// but keeps the kind, so the next press of the same menu button only forgets
/// the kind and opens nothing.
#[derive(Clone, Copy, Debug, PartialEq, Eq, Structural)]
pub struct PopupState {
    pub window_open: bool,
    pub source: Option<PopupKind>,
}

/// What a press of a menu button asks of the windows.
#[derive(Clone, Copy, Debug, PartialEq, Eq, Structural)]
pub struct Toggle {
    /// Destroy the popup window that is open now.
    pub destroy_existing: bool,
    /// Build and show the popup of the pressed button.
    pub open_new: bool,
}

impl PopupState {
    pub open spec fn closed() -> Self {
        PopupState { window_open: false, source: None }
    }

    /// The state after a press of the menu button of `kind`.
    pub open spec fn toggled(self, kind: PopupKind) -> Self {
        if self.source == Some(kind) {
            PopupState::closed()
        } else {
            PopupState { window_open: true, source: Some(kind) }
        }
    }

    /// What a press of the menu button of `kind` asks of the windows.
    pub open spec fn toggle_action(self, kind: PopupKind) -> Toggle {
        Toggle { destroy_existing: self.window_open, open_new: self.source != Some(kind) }
    }

    /// No popup window and no remembered kind.
    pub fn new() -> (r: Self)
        ensures
            r == PopupState::closed(),
            !r.window_open,
            r.source is None,
    {
        PopupState { window_open: false, source: None }
    }

    /// A press of the menu button of `kind`: the same button closes its popup,
    /// another one replaces the open popup with its own.
    pub fn toggle(&mut self, kind: PopupKind) -> (r: Toggle)
        ensures
            *final(self) == old(self).toggled(kind),
            r == old(self).toggle_action(kind),
    {
        let destroy_existing = self.window_open;
        if self.source == Some(kind) {
            self.window_open = false;
            self.source = None;
            Toggle { destroy_existing, open_new: false }
        } else {
            self.window_open = true;
            self.source = Some(kind);
            Toggle { destroy_existing, open_new: true }
        }
    }

    /// An entry of the popup was chosen: its window closes, the kind stays.
    pub fn entry_chosen(&mut self)
        ensures
            final(self).window_open == false,
            final(self).source == old(self).source,
    {
        self.window_open = false;
    }

    /// The popup window lost the focus: it closes and the kind is forgotten.
    pub fn focus_lost(&mut self)
        ensures
            *final(self) == PopupState::closed(),
            !final(self).window_open,
            final(self).source is None,
    {
        self.window_open = false;
        self.source = None;
    }

    /// A press on the drawing surface while a popup is open only closes the
    /// popup; the result says whether it did (and the press is used up).
    pub fn dismiss_for_canvas(&mut self) -> (r: bool)
        ensures
            r == old(self).window_open,
            r ==> *final(self) == PopupState::closed(),
            r ==> !final(self).window_open && final(self).source is None,
            !r ==> *final(self) == *old(self),
    {
        if self.window_open {
            self.window_open = false;
            self.source = None;
            true
        } else {
            false
        }
    }
}

/// Pressing the same menu button twice closes the popup it opened and leaves
/// nothing remembered; the second press destroys the window and opens nothing.
pub proof fn lemma_toggle_twice_closes(p: PopupState, kind: PopupKind)
    requires
        p.source != Some(kind),
    ensures
        p.toggled(kind).toggled(kind) == PopupState::closed(),
        p.toggled(kind).window_open,
        p.toggled(kind).toggle_action(kind) == (Toggle { destroy_existing: true, open_new: false }),
{
}

/// At most one popup is open, and it is the one of the button pressed last
/// whenever that press opened one.
pub proof fn lemma_toggle_opens_pressed_kind(p: PopupState, kind: PopupKind)
    ensures
        p.toggle_action(kind).open_new ==> p.toggled(kind) == (PopupState {
            window_open: true,
            source: Some(kind),
        }),
        !p.toggle_action(kind).open_new ==> p.toggled(kind) == PopupState::closed(),
{
}

/// Pressing the button whose popup kind is remembered closes everything and
/// opens nothing; pressing any other button opens that button's popup and
/// remembers its kind. The window open before is destroyed in both cases.
pub proof fn lemma_toggle_by_source(p: PopupState, kind: PopupKind)
    ensures
        p.source == Some(kind) ==> !p.toggled(kind).window_open && p.toggled(kind).source is None
            && !p.toggle_action(kind).open_new,
        p.source != Some(kind) ==> p.toggled(kind).window_open && p.toggled(kind).source == Some(
            kind,
        ) && p.toggle_action(kind).open_new,
        p.toggle_action(kind).destroy_existing == p.window_open,
{
}

} // verus!
