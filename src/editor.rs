//! An editing session: buffer, cursor, viewport and redraw planning.
use crate::command::{draws_of, DrawOp, EditCommand, CURSOR_GLYPH, FILLER};
use crate::model::{
    delete_before, dirty_between, dirty_from, insert_text, lemma_line_within_longest, longest, merge_up, split_line,
    visible_part, EditorView,
};
use vstd::prelude::*;

verus! {

/// An editing session on a viewport of fixed size.
pub struct Editor {
    width: usize,
    height: usize,
    should_quit: bool,
    cursor_col: usize,
    cursor_row: usize,
    cursor_saved_x: usize,
    scroll_col: usize,
    scroll_row: usize,
    lines: Vec<Vec<char>>,
    dirty: Vec<bool>,
}

impl View for Editor {
    type V = EditorView;

    closed spec fn view(&self) -> EditorView {
        EditorView {
            lines: self.lines@.map_values(|l: Vec<char>| l@),
            dirty: self.dirty@,
            col: self.cursor_col as nat,
            row: self.cursor_row as nat,
            saved_col: self.cursor_saved_x as nat,
            scroll_col: self.scroll_col as nat,
            scroll_row: self.scroll_row as nat,
            width: self.width as nat,
            height: self.height as nat,
            quit: self.should_quit,
        }
    }
}

/// A text of one character.
fn single(c: char) -> (r: Vec<char>)
    ensures
        r@ == seq![c],
{
    let mut r: Vec<char> = Vec::new();
    r.push(c);
    r
}

impl Editor {
    /// A session holding one empty, clean line, with the cursor and the
    /// viewport at the origin.
    pub fn new(width: usize, height: usize) -> (r: Editor)
        requires
            width >= 1,
            height >= 1,
        ensures
            r@ == (EditorView {
                lines: seq![Seq::empty()],
                dirty: seq![false],
                col: 0,
                row: 0,
                saved_col: 0,
                scroll_col: 0,
                scroll_row: 0,
                width: width as nat,
                height: height as nat,
                quit: false,
            }),
            r@.wf(),
    {
        let r = Editor {
            width,
            height,
            should_quit: false,
            cursor_col: 0,
            cursor_row: 0,
            cursor_saved_x: 0,
            scroll_col: 0,
            scroll_row: 0,
            lines: vec![Vec::new()],
            dirty: vec![false],
        };
        assert(r@.lines =~= seq![Seq::<char>::empty()]);
        assert(r@.dirty =~= seq![false]);
        r
    }

    /// Marks every line in `from..to` dirty.
    fn mark_dirty(&mut self, from: usize, to: usize)
        requires
            from <= to <= old(self)@.dirty.len(),
        ensures
            final(self)@ == (EditorView { dirty: dirty_between(old(self)@.dirty, from as int, to as int), ..old(self)@ }),
    {
        let ghost pre = self@;
        let n = to;
        let mut i = from;
        while i < n
            invariant
                from <= i <= n,
                n <= self.dirty@.len(),
                self@ == (EditorView { dirty: self.dirty@, ..pre }),
                pre.dirty.len() == self.dirty@.len(),
                forall|j: int|
                    0 <= j < self.dirty@.len() ==> self.dirty@[j] == if j < from {
                        pre.dirty[j]
                    } else if j < i {
                        true
                    } else {
                        pre.dirty[j]
                    },
            decreases n - i,
        {
            self.dirty.set(i, true);
            i = i + 1;
        }
        assert(self.dirty@ =~= dirty_between(pre.dirty, from as int, to as int));
    }

    /// Marks every line that the window shows dirty.
    fn mark_window_dirty(&mut self)
        requires
            old(self)@.scroll_row < old(self)@.lines.len(),
            old(self)@.dirty.len() == old(self)@.lines.len(),
        ensures
            final(self)@ == (EditorView {
                dirty: dirty_between(
                    old(self)@.dirty,
                    old(self)@.scroll_row as int,
                    (old(self)@.scroll_row + old(self)@.height) as int,
                ),
                ..old(self)@
            }),
    {
        let ghost pre = self@;
        let len = self.dirty.len();
        let to = if len - self.scroll_row < self.height { len } else { self.scroll_row + self.height };
        self.mark_dirty(self.scroll_row, to);
        assert(self@.dirty =~= dirty_between(pre.dirty, pre.scroll_row as int, (pre.scroll_row + pre.height) as int));
    }

    /// The length of the longest line.
    pub fn longest_line(&self) -> (r: usize)
        ensures
            r == longest(self@.lines),
    {
        let ghost ls = self@.lines;
        let mut m: usize = 0;
        let mut i: usize = 0;
        while i < self.lines.len()
            invariant
                i <= self.lines@.len(),
                ls == self@.lines,
                m == longest(ls.subrange(0, i as int)),
            decreases self.lines@.len() - i,
        {
            let len = self.lines[i].len();
            assert(ls.subrange(0, i + 1).drop_last() =~= ls.subrange(0, i as int));
            if len > m {
                m = len;
            }
            i = i + 1;
        }
        assert(ls.subrange(0, i as int) =~= ls);
        m
    }

    /// Brings a cursor above the window into view; a scroll marks every line
    /// of the new window dirty.
    pub fn scroll_up(&mut self)
        requires
            old(self)@.cursor_in_buffer(),
        ensures
            final(self)@ == if old(self)@.row < old(self)@.scroll_row {
                EditorView {
                    scroll_row: old(self)@.row,
                    dirty: dirty_between(old(self)@.dirty, old(self)@.row as int, (old(self)@.row + old(self)@.height) as int),
                    ..old(self)@
                }
            } else {
                old(self)@
            },
    {
        if self.cursor_row < self.scroll_row {
            self.scroll_row = self.cursor_row;
            self.mark_window_dirty();
        }
    }

    /// Brings a cursor below the window into view; a scroll marks every line
    /// of the new window dirty.
    pub fn scroll_down(&mut self)
        requires
            old(self)@.cursor_in_buffer(),
            old(self)@.scroll_row <= old(self)@.row,
        ensures
            final(self)@ == if old(self)@.row >= old(self)@.scroll_row + old(self)@.height {
                EditorView {
                    scroll_row: (old(self)@.row + 1 - old(self)@.height) as nat,
                    dirty: dirty_between(old(self)@.dirty, old(self)@.row + 1 - old(self)@.height, (old(self)@.row + 1) as int),
                    ..old(self)@
                }
            } else {
                old(self)@
            },
    {
        if self.cursor_row - self.scroll_row >= self.height {
            self.scroll_row = self.cursor_row - self.height + 1;
            self.mark_window_dirty();
        }
    }

    /// Moves the window left to the cursor column, or to column 0 when every
    /// line fits; a scroll marks the cursor row dirty.
    pub fn scroll_left(&mut self)
        requires
            old(self)@.cursor_in_buffer(),
        ensures
            ({
                let o = old(self)@;
                let target: nat = if longest(o.lines) < o.width { 0 } else { o.col };
                final(self)@ == if target < o.scroll_col {
                    EditorView { scroll_col: target, dirty: o.dirty.update(o.row as int, true), ..o }
                } else {
                    o
                }
            }),
    {
        let target = if self.longest_line() < self.width { 0 } else { self.cursor_col };
        if target < self.scroll_col {
            self.scroll_col = target;
            self.dirty.set(self.cursor_row, true);
        }
    }

    /// Moves the window right until it shows the cursor column; a scroll
    /// marks the cursor row dirty.
    pub fn scroll_right(&mut self)
        requires
            old(self)@.cursor_in_buffer(),
            old(self)@.scroll_col <= old(self)@.col,
        ensures
            ({
                let o = old(self)@;
                final(self)@ == if o.col >= o.scroll_col + o.width {
                    EditorView {
                        scroll_col: (o.col + 1 - o.width) as nat,
                        dirty: o.dirty.update(o.row as int, true),
                        ..o
                    }
                } else {
                    o
                }
            }),
    {
        if self.cursor_col - self.scroll_col >= self.width {
            self.scroll_col = self.cursor_col - self.width + 1;
            self.dirty.set(self.cursor_row, true);
        }
    }

    /// Re-establishes the viewport invariant after a cursor move or an edit.
    fn scroll_to_cursor(&mut self)
        requires
            old(self)@.cursor_in_buffer(),
        ensures
            final(self)@ == old(self)@.scrolled(),
            final(self)@.wf(),
    {
        let ghost o = self@;
        proof {
            lemma_line_within_longest(o.lines, o.row as int);
        }
        self.scroll_up();
        self.scroll_down();
        self.scroll_left();
        self.scroll_right();
        assert(self@.dirty =~= o.scrolled().dirty);
    }
    /// `MoveLeft`.
    pub fn handle_left(&mut self)
        requires
            old(self)@.wf(),
        ensures
            final(self)@ == old(self)@.after_left(),
            final(self)@.wf(),
    {
        if self.cursor_col > 0 {
            self.dirty.set(self.cursor_row, true);
            self.cursor_col = self.cursor_col - 1;
        } else if self.cursor_row > 0 {
            self.dirty.set(self.cursor_row, true);
            self.cursor_row = self.cursor_row - 1;
            self.dirty.set(self.cursor_row, true);
            self.cursor_col = self.lines[self.cursor_row].len();
        }
        self.cursor_saved_x = self.cursor_col;
        self.scroll_to_cursor();
    }

    /// `MoveRight`.
    pub fn handle_right(&mut self)
        requires
            old(self)@.wf(),
        ensures
            final(self)@ == old(self)@.after_right(),
            final(self)@.wf(),
    {
        if self.cursor_col < self.lines[self.cursor_row].len() {
            self.dirty.set(self.cursor_row, true);
            self.cursor_col = self.cursor_col + 1;
        } else if self.cursor_row < self.lines.len() - 1 {
            self.dirty.set(self.cursor_row, true);
            self.cursor_row = self.cursor_row + 1;
            self.dirty.set(self.cursor_row, true);
            self.cursor_col = 0;
        }
        self.cursor_saved_x = self.cursor_col;
        self.scroll_to_cursor();
    }

    /// `MoveUp`.
    pub fn handle_up(&mut self)
        requires
            old(self)@.wf(),
        ensures
            final(self)@ == old(self)@.after_up(),
            final(self)@.wf(),
    {
        if self.cursor_row > 0 {
            self.dirty.set(self.cursor_row, true);
            self.cursor_row = self.cursor_row - 1;
            self.dirty.set(self.cursor_row, true);
            let len = self.lines[self.cursor_row].len();
            self.cursor_col = if self.cursor_saved_x < len { self.cursor_saved_x } else { len };
        } else {
            self.cursor_saved_x = self.cursor_col;
        }
        self.scroll_to_cursor();
    }

    /// `MoveDown`.
    pub fn handle_down(&mut self)
        requires
            old(self)@.wf(),
        ensures
            final(self)@ == old(self)@.after_down(),
            final(self)@.wf(),
    {
        if self.cursor_row < self.lines.len() - 1 {
            self.dirty.set(self.cursor_row, true);
            self.cursor_row = self.cursor_row + 1;
            self.dirty.set(self.cursor_row, true);
            let len = self.lines[self.cursor_row].len();
            self.cursor_col = if self.cursor_saved_x < len { self.cursor_saved_x } else { len };
        } else {
            self.cursor_saved_x = self.cursor_col;
        }
        self.scroll_to_cursor();
    }

    /// `InsertChar`: types `c` at the cursor.
    pub fn type_char(&mut self, c: char)
        requires
            old(self)@.wf(),
        ensures
            final(self)@ == old(self)@.after_insert(seq![c]),
            final(self)@.wf(),
    {
        let ghost o = self@;
        let row = self.cursor_row;
        let col = self.cursor_col;
        self.lines[row].insert(col, c);
        // A vector's length is a usize, so the column after the new character is one too.
        let _new_len = self.lines[row].len();
        self.dirty.set(row, true);
        self.cursor_col = col + 1;
        self.cursor_saved_x = col + 1;
        proof {
            let line = o.lines[row as int];
            assert(line.insert(col as int, c) =~= line.subrange(0, col as int) + seq![c] + line.subrange(
                col as int,
                line.len() as int,
            ));
            assert(self@.lines =~= insert_text(o.lines, row as int, col as int, seq![c]));
        }
        self.scroll_to_cursor();
    }

    /// `InsertText`: types every character of `s` at the cursor, which ends
    /// up after the last of them.
    pub fn type_str(&mut self, s: &Vec<char>)
        requires
            old(self)@.wf(),
        ensures
            final(self)@ == old(self)@.after_insert(s@),
            final(self)@.wf(),
    {
        let ghost o = self@;
        let row = self.cursor_row;
        let col = self.cursor_col;
        let mut line: Vec<char> = Vec::new();
        std::mem::swap(&mut line, &mut self.lines[row]);
        let mut tail = line.split_off(col);
        let mut k: usize = 0;
        while k < s.len()
            invariant
                k <= s@.len(),
                line@ == o.lines[row as int].subrange(0, col as int) + s@.subrange(0, k as int),
            decreases s@.len() - k,
        {
            line.push(s[k]);
            k = k + 1;
        }
        line.append(&mut tail);
        // A vector's length is a usize, so the column after the text is one too.
        let _new_len = line.len();
        self.lines.set(row, line);
        self.dirty.set(row, true);
        self.cursor_col = col + s.len();
        self.cursor_saved_x = col + s.len();
        proof {
            assert(s@.subrange(0, s@.len() as int) =~= s@);
            assert(self@.lines =~= insert_text(o.lines, row as int, col as int, s@));
        }
        self.scroll_to_cursor();
    }

    /// A paste: the pasted text is typed at the cursor.
    pub fn handle_paste(&mut self, s: &Vec<char>)
        requires
            old(self)@.wf(),
        ensures
            final(self)@ == old(self)@.after_insert(s@),
            final(self)@.wf(),
    {
        self.type_str(s);
    }

    /// `Enter`: splits the line at the cursor.
    pub fn handle_enter(&mut self)
        requires
            old(self)@.wf(),
        ensures
            final(self)@ == old(self)@.after_enter(),
            final(self)@.wf(),
    {
        let ghost o = self@;
        let row = self.cursor_row;
        let col = self.cursor_col;
        // A vector's length is a usize, so the index of the new row is one too.
        let _count = self.lines.len();
        let tail = self.lines[row].split_off(col);
        self.lines.insert(row + 1, tail);
        self.dirty.insert(row + 1, true);
        let len = self.dirty.len();
        self.mark_dirty(row, len);
        self.cursor_row = row + 1;
        self.cursor_col = 0;
        self.cursor_saved_x = 0;
        proof {
            assert(self@.lines =~= split_line(o.lines, row as int, col as int));
        }
        self.scroll_to_cursor();
    }

    /// `Backspace`: deletes the character before the cursor, or joins the
    /// line onto the previous one at its start.
    pub fn handle_backspace(&mut self)
        requires
            old(self)@.wf(),
        ensures
            final(self)@ == old(self)@.after_backspace(),
            final(self)@.wf(),
    {
        let ghost o = self@;
        let row = self.cursor_row;
        let col = self.cursor_col;
        if col > 0 {
            self.lines[row].remove(col - 1);
            self.dirty.set(row, true);
            self.cursor_col = col - 1;
            self.cursor_saved_x = col - 1;
            proof {
                assert(self@.lines =~= delete_before(o.lines, row as int, col as int));
            }
        } else if row > 0 {
            let mut cur = self.lines.remove(row);
            self.dirty.remove(row);
            let join = self.lines[row - 1].len();
            self.lines[row - 1].append(&mut cur);
            let len = self.dirty.len();
            self.mark_dirty(row - 1, len);
            self.cursor_row = row - 1;
            self.cursor_col = join;
            self.cursor_saved_x = join;
            proof {
                assert(self@.lines =~= merge_up(o.lines, row as int));
            }
        } else {
            self.cursor_saved_x = 0;
        }
        self.scroll_to_cursor();
    }
    /// The characters of buffer row `b` that the window shows.
    fn visible_slice(&self, b: usize) -> (r: Vec<char>)
        requires
            b < self@.lines.len(),
        ensures
            r@ == visible_part(self@.lines[b as int], self@.scroll_col, self@.width),
    {
        let ghost line = self@.lines[b as int];
        let len = self.lines[b].len();
        let mut r: Vec<char> = Vec::new();
        if self.scroll_col >= len {
            return r;
        }
        let end = if len - self.scroll_col <= self.width { len } else { self.scroll_col + self.width };
        let mut j = self.scroll_col;
        while j < end
            invariant
                self.scroll_col <= j <= end <= len,
                len == line.len(),
                line == self@.lines[b as int],
                b < self@.lines.len(),
                r@ == line.subrange(self.scroll_col as int, j as int),
            decreases end - j,
        {
            r.push(self.lines[b][j]);
            j = j + 1;
        }
        r
    }

    /// Screen rows `0..height`: filler past the end of the document, and a
    /// repaint of every visible dirty line, whose flag is then cleared.
    fn draw_rows(&mut self) -> (r: Vec<DrawOp>)
        requires
            old(self)@.wf(),
        ensures
            draws_of(r@) == old(self)@.rows_draws(old(self)@.height),
            final(self)@ == old(self)@.drawn(),
    {
        let ghost o = self@;
        let mut ops: Vec<DrawOp> = Vec::new();
        let mut i: usize = 0;
        while i < self.height
            invariant
                o.wf(),
                i <= self.height,
                self@ == (EditorView { dirty: self.dirty@, ..o }),
                self.dirty@.len() == o.dirty.len(),
                forall|b: int|
                    0 <= b < o.dirty.len() ==> self.dirty@[b] == if self.scroll_row <= b
                        < self.scroll_row + i {
                        false
                    } else {
                        o.dirty[b]
                    },
                draws_of(ops@) == o.rows_draws(i as nat),
            decreases self.height - i,
        {
            let ghost before = ops@;
            let avail = self.lines.len() - self.scroll_row;
            if i >= avail {
                ops.push(DrawOp::ClearLine(i));
                ops.push(DrawOp::MoveTo(0, i));
                ops.push(DrawOp::Print(single(FILLER)));
                assert(draws_of(ops@) =~= draws_of(before) + o.row_draws(i as nat));
            } else {
                let b = self.scroll_row + i;
                if self.dirty[b] {
                    let text = self.visible_slice(b);
                    ops.push(DrawOp::ClearLine(i));
                    ops.push(DrawOp::MoveTo(0, i));
                    ops.push(DrawOp::Print(text));
                    self.dirty.set(b, false);
                    assert(draws_of(ops@) =~= draws_of(before) + o.row_draws(i as nat));
                } else {
                    assert(draws_of(ops@) =~= draws_of(before) + o.row_draws(i as nat));
                }
            }
            i = i + 1;
        }
        assert(self.dirty@ =~= o.drawn().dirty);
        ops
    }

    /// Draws the dirty visible lines and the cursor glyph, and returns the
    /// instructions in the order they are to be carried out.
    pub fn refresh(&mut self) -> (r: Vec<DrawOp>)
        requires
            old(self)@.wf(),
        ensures
            draws_of(r@) == old(self)@.frame(),
            final(self)@ == old(self)@.drawn(),
            final(self)@.wf(),
    {
        let ghost o = self@;
        let mut ops = self.draw_rows();
        ops.push(DrawOp::MoveTo(self.cursor_col - self.scroll_col, self.cursor_row - self.scroll_row));
        ops.push(DrawOp::Print(single(CURSOR_GLYPH)));
        assert(draws_of(ops@) =~= o.frame());
        ops
    }

    /// Carries out one command and returns the frame that shows its outcome.
    pub fn apply(&mut self, cmd: EditCommand) -> (r: Vec<DrawOp>)
        requires
            old(self)@.wf(),
        ensures
            final(self)@ == old(self)@.after_command(cmd).drawn(),
            draws_of(r@) == old(self)@.after_command(cmd).frame(),
            final(self)@.wf(),
    {
        match cmd {
            EditCommand::InsertChar(c) => self.type_char(c),
            EditCommand::InsertText(t) => self.handle_paste(&t),
            EditCommand::Backspace => self.handle_backspace(),
            EditCommand::Enter => self.handle_enter(),
            EditCommand::MoveLeft => self.handle_left(),
            EditCommand::MoveRight => self.handle_right(),
            EditCommand::MoveUp => self.handle_up(),
            EditCommand::MoveDown => self.handle_down(),
            EditCommand::Quit => self.should_quit = true,
        }
        self.refresh()
    }

    /// Whether a `Quit` command has been applied.
    pub fn is_quit_requested(&self) -> (r: bool)
        ensures
            r == self@.quit,
    {
        self.should_quit
    }
    /// The cursor as `(column, row)` in buffer coordinates.
    pub fn cursor(&self) -> (r: (usize, usize))
        ensures
            r.0 == self@.col,
            r.1 == self@.row,
    {
        (self.cursor_col, self.cursor_row)
    }

    /// The scroll offset as `(column, row)`: the buffer coordinate shown at
    /// the top left of the screen.
    pub fn scroll(&self) -> (r: (usize, usize))
        ensures
            r.0 == self@.scroll_col,
            r.1 == self@.scroll_row,
    {
        (self.scroll_col, self.scroll_row)
    }

    /// The column that vertical moves aim for.
    pub fn saved_column(&self) -> (r: usize)
        ensures
            r == self@.saved_col,
    {
        self.cursor_saved_x
    }

    /// The number of lines in the buffer.
    pub fn line_count(&self) -> (r: usize)
        ensures
            r == self@.lines.len(),
    {
        self.lines.len()
    }

    /// A copy of line `i`.
    pub fn line(&self, i: usize) -> (r: Vec<char>)
        requires
            i < self@.lines.len(),
        ensures
            r@ == self@.lines[i as int],
    {
        let ghost line = self@.lines[i as int];
        let mut r: Vec<char> = Vec::new();
        let mut j: usize = 0;
        while j < self.lines[i].len()
            invariant
                i < self@.lines.len(),
                line == self@.lines[i as int],
                j <= line.len(),
                r@ == line.subrange(0, j as int),
            decreases line.len() - j,
        {
            r.push(self.lines[i][j]);
            j = j + 1;
        }
        assert(line.subrange(0, j as int) =~= line);
        r
    }

    /// Whether line `i` waits to be repainted.
    pub fn is_dirty(&self, i: usize) -> (r: bool)
        requires
            i < self@.dirty.len(),
        ensures
            r == self@.dirty[i as int],
    {
        self.dirty[i]
    }
}

} // verus!
