//! The mathematical model of an editing session and of each command on it.
use crate::command::{Draw, EditCommand, CURSOR_GLYPH, FILLER};
use vstd::prelude::*;

verus! {

/// What an editing session is, as plain mathematics.
pub struct EditorView {
    pub lines: Seq<Seq<char>>,
    pub dirty: Seq<bool>,
    pub col: nat,
    pub row: nat,
    pub saved_col: nat,
    pub scroll_col: nat,
    pub scroll_row: nat,
    pub width: nat,
    pub height: nat,
    pub quit: bool,
}

/// The length of the longest line (0 for no lines).
pub open spec fn longest(lines: Seq<Seq<char>>) -> nat
    decreases lines.len(),
{
    if lines.len() == 0 {
        0
    } else {
        let rest = longest(lines.drop_last());
        if lines.last().len() > rest {
            lines.last().len()
        } else {
            rest
        }
    }
}

/// Every line is at most as long as the longest one.
pub proof fn lemma_line_within_longest(lines: Seq<Seq<char>>, i: int)
    requires
        0 <= i < lines.len(),
    ensures
        lines[i].len() <= longest(lines),
    decreases lines.len(),
{
    if i < lines.len() - 1 {
        lemma_line_within_longest(lines.drop_last(), i);
    }
}

/// The first visible buffer row once the cursor row is brought into view.
pub open spec fn follow_row(scroll_row: nat, row: nat, height: nat) -> nat {
    if row < scroll_row {
        row
    } else if row >= scroll_row + height {
        (row + 1 - height) as nat
    } else {
        scroll_row
    }
}

/// The first visible column once the cursor column is brought into view; a
/// document narrower than the viewport is never scrolled sideways.
pub open spec fn follow_col(scroll_col: nat, col: nat, width: nat, longest_len: nat) -> nat {
    if longest_len < width {
        0
    } else if col < scroll_col {
        col
    } else if col >= scroll_col + width {
        (col + 1 - width) as nat
    } else {
        scroll_col
    }
}

/// `d` with every flag from index `from` on set.
pub open spec fn dirty_from(d: Seq<bool>, from: int) -> Seq<bool> {
    dirty_between(d, from, d.len() as int)
}

/// `d` with every flag at an index in `lo..hi` set.
pub open spec fn dirty_between(d: Seq<bool>, lo: int, hi: int) -> Seq<bool> {
    Seq::new(d.len(), |i: int| if lo <= i < hi { true } else { d[i] })
}

/// Text `s` inserted into line `row` at column `col`.
pub open spec fn insert_text(lines: Seq<Seq<char>>, row: int, col: int, s: Seq<char>) -> Seq<Seq<char>> {
    let line = lines[row];
    lines.update(row, line.subrange(0, col) + s + line.subrange(col, line.len() as int))
}

/// Line `row` cut at column `col`, the suffix becoming a new line below it.
pub open spec fn split_line(lines: Seq<Seq<char>>, row: int, col: int) -> Seq<Seq<char>> {
    let line = lines[row];
    lines.update(row, line.subrange(0, col)).insert(row + 1, line.subrange(col, line.len() as int))
}

/// Line `row` appended to the line above it and removed.
pub open spec fn merge_up(lines: Seq<Seq<char>>, row: int) -> Seq<Seq<char>> {
    lines.update(row - 1, lines[row - 1] + lines[row]).remove(row)
}

/// The character before column `col` of line `row` removed.
pub open spec fn delete_before(lines: Seq<Seq<char>>, row: int, col: int) -> Seq<Seq<char>> {
    lines.update(row, lines[row].remove(col - 1))
}

impl EditorView {
    /// The buffer is never empty, one dirty flag per line, the viewport has
    /// room, and the cursor addresses an existing row and a column within it.
    pub open spec fn cursor_in_buffer(self) -> bool {
        &&& self.lines.len() >= 1
        &&& self.dirty.len() == self.lines.len()
        &&& self.width >= 1
        &&& self.height >= 1
        &&& self.row < self.lines.len()
        &&& self.col <= self.lines[self.row as int].len()
    }

    /// The cursor lies inside the visible window, and a document narrower
    /// than the window is shown from its first column.
    pub open spec fn cursor_on_screen(self) -> bool {
        &&& self.scroll_row <= self.row < self.scroll_row + self.height
        &&& self.scroll_col <= self.col < self.scroll_col + self.width
        &&& longest(self.lines) < self.width ==> self.scroll_col == 0
    }

    /// The invariant of every reachable session.
    pub open spec fn wf(self) -> bool {
        self.cursor_in_buffer() && self.cursor_on_screen()
    }

    /// The session after the viewport has been moved to show the cursor:
    /// a vertical scroll marks every line of the new window dirty, a
    /// horizontal one the cursor row.
    pub open spec fn scrolled(self) -> EditorView {
        let sr = follow_row(self.scroll_row, self.row, self.height);
        let sc = follow_col(self.scroll_col, self.col, self.width, longest(self.lines));
        let dirty = if sr != self.scroll_row {
            dirty_between(self.dirty, sr as int, (sr + self.height) as int)
        } else if sc != self.scroll_col {
            self.dirty.update(self.row as int, true)
        } else {
            self.dirty
        };
        EditorView { scroll_row: sr, scroll_col: sc, dirty, ..self }
    }

    /// The session with new content, cursor and marks, before scrolling.
    pub open spec fn with_edit(
        self,
        lines: Seq<Seq<char>>,
        dirty: Seq<bool>,
        col: nat,
        row: nat,
        saved_col: nat,
    ) -> EditorView {
        EditorView { lines, dirty, col, row, saved_col, ..self }
    }

    /// `MoveLeft`: one column left, or to the end of the previous line.
    pub open spec fn after_left(self) -> EditorView {
        if self.col > 0 {
            let c = (self.col - 1) as nat;
            self.with_edit(self.lines, self.dirty.update(self.row as int, true), c, self.row, c).scrolled()
        } else if self.row > 0 {
            let r = (self.row - 1) as nat;
            let c = self.lines[r as int].len();
            let d = self.dirty.update(self.row as int, true).update(r as int, true);
            self.with_edit(self.lines, d, c, r, c).scrolled()
        } else {
            self.with_edit(self.lines, self.dirty, 0, 0, 0).scrolled()
        }
    }

    /// `MoveRight`: one column right, or to the start of the next line.
    pub open spec fn after_right(self) -> EditorView {
        if self.col < self.lines[self.row as int].len() {
            let c = self.col + 1;
            self.with_edit(self.lines, self.dirty.update(self.row as int, true), c, self.row, c).scrolled()
        } else if self.row + 1 < self.lines.len() {
            let r = self.row + 1;
            let d = self.dirty.update(self.row as int, true).update(r as int, true);
            self.with_edit(self.lines, d, 0, r, 0).scrolled()
        } else {
            self.with_edit(self.lines, self.dirty, self.col, self.row, self.col).scrolled()
        }
    }

    /// The column that a vertical move lands on in line `r`.
    pub open spec fn sticky_col(self, r: int) -> nat {
        if self.saved_col < self.lines[r].len() {
            self.saved_col
        } else {
            self.lines[r].len()
        }
    }

    /// `MoveUp`: one row up at the remembered column; on the first row the
    /// column stays and becomes the remembered one.
    pub open spec fn after_up(self) -> EditorView {
        if self.row > 0 {
            let r = (self.row - 1) as nat;
            let d = self.dirty.update(self.row as int, true).update(r as int, true);
            self.with_edit(self.lines, d, self.sticky_col(r as int), r, self.saved_col).scrolled()
        } else {
            self.with_edit(self.lines, self.dirty, self.col, self.row, self.col).scrolled()
        }
    }

    /// `MoveDown`: one row down at the remembered column; on the last row the
    /// column stays and becomes the remembered one.
    pub open spec fn after_down(self) -> EditorView {
        if self.row + 1 < self.lines.len() {
            let r = self.row + 1;
            let d = self.dirty.update(self.row as int, true).update(r as int, true);
            self.with_edit(self.lines, d, self.sticky_col(r as int), r, self.saved_col).scrolled()
        } else {
            self.with_edit(self.lines, self.dirty, self.col, self.row, self.col).scrolled()
        }
    }

    /// `InsertChar` / `InsertText`: `s` typed at the cursor, which moves past it.
    pub open spec fn after_insert(self, s: Seq<char>) -> EditorView {
        let lines = insert_text(self.lines, self.row as int, self.col as int, s);
        let c = self.col + s.len();
        self.with_edit(lines, self.dirty.update(self.row as int, true), c, self.row, c).scrolled()
    }

    /// `Enter`: the line is split at the cursor, which moves to the start of
    /// the new line; that line and every one below it are dirty.
    pub open spec fn after_enter(self) -> EditorView {
        let lines = split_line(self.lines, self.row as int, self.col as int);
        let d = dirty_from(self.dirty.insert(self.row + 1int, true), self.row as int);
        self.with_edit(lines, d, 0, self.row + 1, 0).scrolled()
    }

    /// `Backspace`: the character before the cursor goes; at the start of a
    /// line, the line joins the one above with the cursor at the join.
    pub open spec fn after_backspace(self) -> EditorView {
        if self.col > 0 {
            let lines = delete_before(self.lines, self.row as int, self.col as int);
            let c = (self.col - 1) as nat;
            self.with_edit(lines, self.dirty.update(self.row as int, true), c, self.row, c).scrolled()
        } else if self.row > 0 {
            let r = (self.row - 1) as nat;
            let c = self.lines[r as int].len();
            let d = dirty_from(self.dirty.remove(self.row as int), r as int);
            self.with_edit(merge_up(self.lines, self.row as int), d, c, r, c).scrolled()
        } else {
            self.with_edit(self.lines, self.dirty, 0, 0, 0).scrolled()
        }
    }

    /// `Quit`: only the request flag changes.
    pub open spec fn after_quit(self) -> EditorView {
        EditorView { quit: true, ..self }
    }
}

} // verus!

verus! {

/// The part of `line` that a window starting at column `scroll_col` and
/// `width` columns wide shows.
pub open spec fn visible_part(line: Seq<char>, scroll_col: nat, width: nat) -> Seq<char> {
    if scroll_col >= line.len() {
        Seq::empty()
    } else if scroll_col + width <= line.len() {
        line.subrange(scroll_col as int, (scroll_col + width) as int)
    } else {
        line.subrange(scroll_col as int, line.len() as int)
    }
}

impl EditorView {
    /// What screen row `i` needs: a filler row past the end of the
    /// document, a repaint of a dirty line, or nothing.
    pub open spec fn row_draws(self, i: nat) -> Seq<Draw> {
        let b = (self.scroll_row + i) as int;
        if b >= self.lines.len() {
            seq![Draw::ClearLine(i), Draw::MoveTo(0, i), Draw::Print(seq![FILLER])]
        } else if self.dirty[b] {
            seq![
                Draw::ClearLine(i),
                Draw::MoveTo(0, i),
                Draw::Print(visible_part(self.lines[b], self.scroll_col, self.width)),
            ]
        } else {
            Seq::empty()
        }
    }

    /// The instructions for screen rows `0..n`, in order.
    pub open spec fn rows_draws(self, n: nat) -> Seq<Draw>
        decreases n,
    {
        if n == 0 {
            Seq::empty()
        } else {
            self.rows_draws((n - 1) as nat) + self.row_draws((n - 1) as nat)
        }
    }

    /// The whole frame: every screen row, then the cursor glyph at the
    /// cursor's screen position.
    pub open spec fn frame(self) -> Seq<Draw> {
        self.rows_draws(self.height) + seq![
            Draw::MoveTo((self.col - self.scroll_col) as nat, (self.row - self.scroll_row) as nat),
            Draw::Print(seq![CURSOR_GLYPH]),
        ]
    }

    /// The session after a frame: the visible lines are clean.
    pub open spec fn drawn(self) -> EditorView {
        let dirty = Seq::new(
            self.dirty.len(),
            |b: int| if self.scroll_row <= b < self.scroll_row + self.height { false } else { self.dirty[b] },
        );
        EditorView { dirty, ..self }
    }

    /// The session after one command, before it is drawn.
    pub open spec fn after_command(self, cmd: EditCommand) -> EditorView {
        match cmd {
            EditCommand::InsertChar(c) => self.after_insert(seq![c]),
            EditCommand::InsertText(t) => self.after_insert(t@),
            EditCommand::Backspace => self.after_backspace(),
            EditCommand::Enter => self.after_enter(),
            EditCommand::MoveLeft => self.after_left(),
            EditCommand::MoveRight => self.after_right(),
            EditCommand::MoveUp => self.after_up(),
            EditCommand::MoveDown => self.after_down(),
            EditCommand::Quit => self.after_quit(),
        }
    }
}

} // verus!
