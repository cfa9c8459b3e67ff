//! What the editor consumes (commands) and what it produces (screen
//! instructions).
use vstd::prelude::*;

verus! {

/// One abstract edit, already decoded from the keyboard or a paste.
#[derive(Debug, Clone, PartialEq, Eq)]
pub enum EditCommand {
    InsertChar(char),
    InsertText(Vec<char>),
    Backspace,
    Enter,
    MoveLeft,
    MoveRight,
    MoveUp,
    MoveDown,
    Quit,
}

/// One instruction for the screen, in screen coordinates.
#[derive(Debug, Clone, PartialEq, Eq)]
pub enum DrawOp {
    /// Clear screen row `.0`.
    ClearLine(usize),
    /// Place the terminal cursor at column `.0`, row `.1`.
    MoveTo(usize, usize),
    /// Print characters at the terminal cursor.
    Print(Vec<char>),
}

/// A screen instruction as mathematics.
pub enum Draw {
    ClearLine(nat),
    MoveTo(nat, nat),
    Print(Seq<char>),
}

impl View for DrawOp {
    type V = Draw;

    open spec fn view(&self) -> Draw {
        match self {
            DrawOp::ClearLine(r) => Draw::ClearLine(*r as nat),
            DrawOp::MoveTo(c, r) => Draw::MoveTo(*c as nat, *r as nat),
            DrawOp::Print(t) => Draw::Print(t@),
        }
    }
}

/// The instructions of a plan, as mathematics.
pub open spec fn draws_of(ops: Seq<DrawOp>) -> Seq<Draw> {
    ops.map_values(|d: DrawOp| d@)
}

/// The character shown on a row below the end of the document.
pub const FILLER: char = '~';

/// The character drawn at the cursor position.
pub const CURSOR_GLYPH: char = '\u{2588}';

} // verus!
