//! Properties of the editing model that hold across several commands.
use crate::command::EditCommand;
use crate::model::{
    delete_before, dirty_from, insert_text, lemma_line_within_longest, merge_up, split_line,
    EditorView,
};
use vstd::prelude::*;

verus! {

/// Bringing the cursor into view changes nothing when it is already in view.
pub proof fn lemma_scrolled_settled(v: EditorView)
    requires
        v.wf(),
    ensures
        v.scrolled() == v,
{
}

/// Drawing keeps the invariant, the text and the cursor, and drawing twice
/// is drawing once.
pub proof fn lemma_drawn_keeps_state(v: EditorView)
    requires
        v.wf(),
    ensures
        v.drawn().wf(),
        v.drawn().lines == v.lines,
        v.drawn().col == v.col,
        v.drawn().row == v.row,
        v.drawn().drawn() == v.drawn(),
{
    assert(v.drawn().drawn().dirty =~= v.drawn().dirty);
}

/// `Enter` at any column of a line, then `Backspace` (with the frame drawn
/// in between), gives back the lines and the cursor position it started from.
pub proof fn lemma_enter_then_backspace(v: EditorView)
    requires
        v.wf(),
    ensures
        ({
            let w = v.after_enter().drawn().after_backspace();
            &&& w.lines == v.lines
            &&& w.col == v.col
            &&& w.row == v.row
        }),
{
    let r = v.row as int;
    let c = v.col as int;
    let line = v.lines[r];
    let s = split_line(v.lines, r, c);
    assert(s[r] == line.subrange(0, c));
    assert(s[r + 1] == line.subrange(c, line.len() as int));
    assert(line.subrange(0, c) + line.subrange(c, line.len() as int) =~= line);
    assert(merge_up(s, r + 1) =~= v.lines);
}

/// `MoveLeft` at the start of the buffer moves nothing, and a second one
/// (after the frame is drawn) changes nothing at all.
pub proof fn lemma_left_at_start(v: EditorView)
    requires
        v.wf(),
        v.col == 0,
        v.row == 0,
    ensures
        ({
            let w = v.after_left().drawn();
            &&& w.lines == v.lines
            &&& w.col == 0
            &&& w.row == 0
            &&& w.scroll_col == v.scroll_col
            &&& w.scroll_row == v.scroll_row
            &&& w.after_left().drawn() == w
        }),
{
    let u = v.with_edit(v.lines, v.dirty, 0, 0, 0);
    lemma_scrolled_settled(u);
    lemma_drawn_keeps_state(u);
    let w = u.drawn();
    lemma_scrolled_settled(w.with_edit(w.lines, w.dirty, 0, 0, 0));
    assert(w.with_edit(w.lines, w.dirty, 0, 0, 0) == w);
}

/// `MoveRight` at the end of the last line moves nothing, and a second one
/// (after the frame is drawn) changes nothing at all.
pub proof fn lemma_right_at_end(v: EditorView)
    requires
        v.wf(),
        v.row + 1 == v.lines.len(),
        v.col == v.lines[v.row as int].len(),
    ensures
        ({
            let w = v.after_right().drawn();
            &&& w.lines == v.lines
            &&& w.col == v.col
            &&& w.row == v.row
            &&& w.scroll_col == v.scroll_col
            &&& w.scroll_row == v.scroll_row
            &&& w.after_right().drawn() == w
        }),
{
    let u = v.with_edit(v.lines, v.dirty, v.col, v.row, v.col);
    lemma_scrolled_settled(u);
    lemma_drawn_keeps_state(u);
    let w = u.drawn();
    lemma_scrolled_settled(w.with_edit(w.lines, w.dirty, w.col, w.row, w.col));
    assert(w.with_edit(w.lines, w.dirty, w.col, w.row, w.col) == w);
}

/// `MoveUp` lands on the remembered column, cut to the length of the line
/// above, and keeps remembering the same column.
pub proof fn lemma_sticky_column(v: EditorView)
    requires
        v.wf(),
        v.row > 0,
    ensures
        v.after_up().row == v.row - 1,
        v.after_up().col == if v.saved_col < v.lines[v.row - 1].len() {
            v.saved_col
        } else {
            v.lines[v.row - 1].len()
        },
        v.after_up().saved_col == v.saved_col,
{
}

/// Bringing the cursor into view establishes the invariant from any state
/// whose cursor addresses the buffer.
pub proof fn lemma_scrolled_wf(v: EditorView)
    requires
        v.cursor_in_buffer(),
    ensures
        v.scrolled().wf(),
{
    lemma_line_within_longest(v.lines, v.row as int);
}

/// Every command, followed by drawing its frame, keeps the cursor inside
/// the buffer and inside the visible window.
pub proof fn lemma_command_keeps_invariant(v: EditorView, cmd: EditCommand)
    requires
        v.wf(),
    ensures
        v.after_command(cmd).wf(),
        v.after_command(cmd).drawn().wf(),
{
    let r = v.row as int;
    let c = v.col as int;
    let n = v.lines.len();
    match cmd {
        EditCommand::InsertChar(ch) => {
            let k = v.col + 1;
            let lines = insert_text(v.lines, r, c, seq![ch]);
            lemma_scrolled_wf(v.with_edit(lines, v.dirty.update(r, true), k, v.row, k));
        },
        EditCommand::InsertText(t) => {
            let k = v.col + t@.len();
            let lines = insert_text(v.lines, r, c, t@);
            lemma_scrolled_wf(v.with_edit(lines, v.dirty.update(r, true), k, v.row, k));
        },
        EditCommand::Backspace => {
            if v.col > 0 {
                let k = (v.col - 1) as nat;
                let lines = delete_before(v.lines, r, c);
                lemma_scrolled_wf(v.with_edit(lines, v.dirty.update(r, true), k, v.row, k));
            } else if v.row > 0 {
                let j = v.lines[r - 1].len();
                let d = dirty_from(v.dirty.remove(r), r - 1);
                lemma_scrolled_wf(v.with_edit(merge_up(v.lines, r), d, j, (v.row - 1) as nat, j));
            } else {
                lemma_scrolled_wf(v.with_edit(v.lines, v.dirty, 0, 0, 0));
            }
        },
        EditCommand::Enter => {
            let d = dirty_from(v.dirty.insert(r + 1, true), r);
            lemma_scrolled_wf(v.with_edit(split_line(v.lines, r, c), d, 0, v.row + 1, 0));
        },
        EditCommand::MoveLeft => {
            if v.col > 0 {
                let k = (v.col - 1) as nat;
                lemma_scrolled_wf(v.with_edit(v.lines, v.dirty.update(r, true), k, v.row, k));
            } else if v.row > 0 {
                let j = v.lines[r - 1].len();
                let d = v.dirty.update(r, true).update(r - 1, true);
                lemma_scrolled_wf(v.with_edit(v.lines, d, j, (v.row - 1) as nat, j));
            } else {
                lemma_scrolled_wf(v.with_edit(v.lines, v.dirty, 0, 0, 0));
            }
        },
        EditCommand::MoveRight => {
            if v.col < v.lines[r].len() {
                let k = v.col + 1;
                lemma_scrolled_wf(v.with_edit(v.lines, v.dirty.update(r, true), k, v.row, k));
            } else if v.row + 1 < n {
                let d = v.dirty.update(r, true).update(r + 1, true);
                lemma_scrolled_wf(v.with_edit(v.lines, d, 0, v.row + 1, 0));
            } else {
                lemma_scrolled_wf(v.with_edit(v.lines, v.dirty, v.col, v.row, v.col));
            }
        },
        EditCommand::MoveUp => {
            if v.row > 0 {
                let d = v.dirty.update(r, true).update(r - 1, true);
                let k = v.sticky_col(r - 1);
                lemma_scrolled_wf(v.with_edit(v.lines, d, k, (v.row - 1) as nat, v.saved_col));
            } else {
                lemma_scrolled_wf(v.with_edit(v.lines, v.dirty, v.col, v.row, v.col));
            }
        },
        EditCommand::MoveDown => {
            if v.row + 1 < n {
                let d = v.dirty.update(r, true).update(r + 1, true);
                let k = v.sticky_col(r + 1);
                lemma_scrolled_wf(v.with_edit(v.lines, d, k, v.row + 1, v.saved_col));
            } else {
                lemma_scrolled_wf(v.with_edit(v.lines, v.dirty, v.col, v.row, v.col));
            }
        },
        EditCommand::Quit => {},
    }
    lemma_drawn_keeps_state(v.after_command(cmd));
}

} // verus!
