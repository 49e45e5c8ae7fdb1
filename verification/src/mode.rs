//! Editing modes and their rendering hints.
//!
//! A `Mode` selects which dispatch table interprets the next key event.
//! The cursor shape and the border title are pure functions of the mode;
//! they exist only as hints for an external rendering component.

use vstd::prelude::*;

verus! {

/// The editor's current interpretation context for keystrokes.
#[derive(Clone, Copy, Debug, PartialEq, Eq, Structural)]
pub enum Mode {
    Normal,
    Insert,
    Replace,
    Visual,
    VisualLine,
    Command,
}

/// How the cursor should be drawn in a given mode.
#[derive(Clone, Copy, Debug, PartialEq, Eq, Structural)]
pub enum CursorStyle {
    Block,
    Bar,
    Underline,
}

impl Mode {
    /// The cursor shape belonging to this mode: a bar while inserting,
    /// an underline while replacing, a block otherwise.
    pub open spec fn spec_cursor_style(self) -> CursorStyle {
        match self {
            Mode::Insert => CursorStyle::Bar,
            Mode::Replace => CursorStyle::Underline,
            _ => CursorStyle::Block,
        }
    }

    pub fn cursor_style(&self) -> (r: CursorStyle)
        ensures
            r == self.spec_cursor_style(),
    {
        match self {
            Mode::Insert => CursorStyle::Bar,
            Mode::Replace => CursorStyle::Underline,
            _ => CursorStyle::Block,
        }
    }

    /// The border title that a renderer shows for this mode.
    pub open spec fn spec_title(self) -> Seq<char> {
        match self {
            Mode::Normal => "NORMAL"@,
            Mode::Insert => "INSERT"@,
            Mode::Replace => "REPLACE"@,
            Mode::Visual => "VISUAL"@,
            Mode::VisualLine => "VISUAL LINE"@,
            Mode::Command => "COMMAND"@,
        }
    }

    pub fn title(&self) -> (r: &'static str)
        ensures
            r@ == self.spec_title(),
    {
        match self {
            Mode::Normal => "NORMAL",
            Mode::Insert => "INSERT",
            Mode::Replace => "REPLACE",
            Mode::Visual => "VISUAL",
            Mode::VisualLine => "VISUAL LINE",
            Mode::Command => "COMMAND",
        }
    }
}

} // verus!
