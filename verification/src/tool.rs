use vstd::prelude::*;

verus! {

/// The drawing tools offered by the tool selector.
#[derive(Clone, Copy, Debug, PartialEq, Eq, Structural)]
pub enum Tool {
    Pen,
    StraightLine,
    DashedLine,
    Highlighter,
    Eraser,
}

/// What the overlay shows beneath the strokes.
#[derive(Clone, Copy, Debug, PartialEq, Eq, Structural)]
pub enum ViewMode {
    Desktop,
    Zoomed,
}

impl Tool {
    /// The button label of the tool.
    pub fn label(&self) -> (r: &'static str)
        ensures
            r@ == self.spec_label(),
            *self == Tool::Pen ==> r@ == "Kalem"@,
            *self == Tool::StraightLine ==> r@ == "Düz Çizgi"@,
            *self == Tool::DashedLine ==> r@ == "Kesikli Çizgi"@,
            *self == Tool::Highlighter ==> r@ == "Highlighter"@,
            *self == Tool::Eraser ==> r@ == "Silgi"@,
    {
        match self {
            Tool::Pen => "Kalem",
            Tool::StraightLine => "Düz Çizgi",
            Tool::DashedLine => "Kesikli Çizgi",
            Tool::Highlighter => "Highlighter",
            Tool::Eraser => "Silgi",
        }
    }

    pub open spec fn spec_label(&self) -> Seq<char> {
        match self {
            Tool::Pen => "Kalem"@,
            Tool::StraightLine => "Düz Çizgi"@,
            Tool::DashedLine => "Kesikli Çizgi"@,
            Tool::Highlighter => "Highlighter"@,
            Tool::Eraser => "Silgi"@,
        }
    }
}

/// Every tool has its own label.
pub proof fn lemma_labels_distinct(a: Tool, b: Tool)
    requires
        a != b,
    ensures
        a.spec_label() != b.spec_label(),
{
    reveal_strlit("Kalem");
    reveal_strlit("Düz Çizgi");
    reveal_strlit("Kesikli Çizgi");
    reveal_strlit("Highlighter");
    reveal_strlit("Silgi");
    assert("Kalem"@.len() == 5);
    assert("Düz Çizgi"@.len() == 9);
    assert("Kesikli Çizgi"@.len() == 13);
    assert("Highlighter"@.len() == 11);
    assert("Silgi"@.len() == 5);
    assert("Kalem"@[0] != "Silgi"@[0]);
}

/// The label of the mode button: what pointer input does on the overlay.
pub fn mode_label(passthrough: bool) -> (r: &'static str)
    ensures
        r@ == (if passthrough { "Mod: Tıklama"@ } else { "Mod: Çizim"@ }),
{
    if passthrough {
        "Mod: Tıklama"
    } else {
        "Mod: Çizim"
    }
}

} // verus!
