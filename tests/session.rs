use editor::command::{DrawOp, EditCommand, CURSOR_GLYPH, FILLER};
use editor::editor::Editor;

fn chars(s: &str) -> Vec<char> {
    s.chars().collect()
}

fn lines(e: &Editor) -> Vec<String> {
    (0..e.line_count()).map(|i| e.line(i).into_iter().collect()).collect()
}

fn apply_all(e: &mut Editor, cmds: Vec<EditCommand>) {
    for c in cmds {
        e.apply(c);
    }
}

fn check_invariants(e: &Editor, width: usize, height: usize) {
    let (col, row) = e.cursor();
    let (sc, sr) = e.scroll();
    assert!(row < e.line_count());
    assert!(col <= e.line(row).len());
    assert!(sr <= row && row < sr + height);
    assert!(sc <= col && col < sc + width);
    let longest = (0..e.line_count()).map(|i| e.line(i).len()).max().unwrap();
    if longest < width {
        assert_eq!(sc, 0);
    }
}

#[test]
fn insert_text_into_empty_buffer() {
    let mut e = Editor::new(80, 24);
    e.apply(EditCommand::InsertText(chars("hello")));
    assert_eq!(lines(&e), vec!["hello"]);
    assert_eq!(e.cursor(), (5, 0));
}

#[test]
fn enter_at_end_of_line() {
    let mut e = Editor::new(80, 24);
    e.apply(EditCommand::InsertText(chars("hello")));
    e.apply(EditCommand::Enter);
    assert_eq!(lines(&e), vec!["hello", ""]);
    assert_eq!(e.cursor(), (0, 1));
}

#[test]
fn backspace_at_line_start_joins_lines() {
    let mut e = Editor::new(80, 24);
    e.apply(EditCommand::InsertText(chars("hello")));
    e.apply(EditCommand::Enter);
    e.apply(EditCommand::InsertText(chars("world")));
    for _ in 0..5 {
        e.apply(EditCommand::MoveLeft);
    }
    assert_eq!(e.cursor(), (0, 1));
    e.apply(EditCommand::Backspace);
    assert_eq!(lines(&e), vec!["helloworld"]);
    assert_eq!(e.cursor(), (5, 0));
}

#[test]
fn sticky_column_after_typing() {
    let mut e = Editor::new(80, 24);
    apply_all(
        &mut e,
        vec![EditCommand::InsertText(chars("ab")), EditCommand::Enter, EditCommand::InsertChar('x')],
    );
    assert_eq!(e.saved_column(), 1);
    e.apply(EditCommand::MoveUp);
    assert_eq!(e.cursor(), (1, 0));
}

#[test]
fn sticky_column_on_longer_line_above() {
    let mut e = Editor::new(80, 24);
    apply_all(
        &mut e,
        vec![EditCommand::InsertText(chars("hello")), EditCommand::Enter, EditCommand::InsertChar('x')],
    );
    assert_eq!(e.cursor(), (1, 1));
    e.apply(EditCommand::MoveUp);
    assert_eq!(e.cursor(), (1, 0));
}

#[test]
fn sticky_column_survives_short_line() {
    let mut e = Editor::new(80, 24);
    apply_all(
        &mut e,
        vec![
            EditCommand::InsertText(chars("hello")),
            EditCommand::Enter,
            EditCommand::InsertChar('x'),
            EditCommand::Enter,
            EditCommand::InsertText(chars("world")),
            EditCommand::MoveLeft,
        ],
    );
    assert_eq!(e.cursor(), (4, 2));
    e.apply(EditCommand::MoveUp);
    assert_eq!(e.cursor(), (1, 1));
    assert_eq!(e.saved_column(), 4);
    e.apply(EditCommand::MoveUp);
    assert_eq!(e.cursor(), (4, 0));
}

#[test]
fn enter_then_backspace_restores_line() {
    for c in 0..=5 {
        let mut e = Editor::new(80, 24);
        e.apply(EditCommand::InsertText(chars("hello")));
        for _ in c..5 {
            e.apply(EditCommand::MoveLeft);
        }
        assert_eq!(e.cursor(), (c, 0));
        e.apply(EditCommand::Enter);
        assert_eq!(e.line_count(), 2);
        e.apply(EditCommand::Backspace);
        assert_eq!(lines(&e), vec!["hello"]);
        assert_eq!(e.cursor(), (c, 0));
    }
}

#[test]
fn move_left_at_origin_is_noop() {
    let mut e = Editor::new(80, 24);
    e.apply(EditCommand::InsertText(chars("ab")));
    e.apply(EditCommand::MoveLeft);
    e.apply(EditCommand::MoveLeft);
    assert_eq!(e.cursor(), (0, 0));
    for _ in 0..3 {
        e.apply(EditCommand::MoveLeft);
        assert_eq!(e.cursor(), (0, 0));
        assert_eq!(lines(&e), vec!["ab"]);
        assert_eq!(e.scroll(), (0, 0));
    }
}

#[test]
fn move_right_at_end_is_noop() {
    let mut e = Editor::new(80, 24);
    apply_all(
        &mut e,
        vec![EditCommand::InsertText(chars("ab")), EditCommand::Enter, EditCommand::InsertText(chars("cd"))],
    );
    for _ in 0..3 {
        e.apply(EditCommand::MoveRight);
        assert_eq!(e.cursor(), (2, 1));
        assert_eq!(lines(&e), vec!["ab", "cd"]);
    }
}

#[test]
fn move_right_wraps_to_next_line_and_left_wraps_back() {
    let mut e = Editor::new(80, 24);
    apply_all(
        &mut e,
        vec![EditCommand::InsertText(chars("ab")), EditCommand::Enter, EditCommand::InsertText(chars("cd"))],
    );
    e.apply(EditCommand::MoveUp);
    assert_eq!(e.cursor(), (2, 0));
    e.apply(EditCommand::MoveRight);
    assert_eq!(e.cursor(), (0, 1));
    e.apply(EditCommand::MoveLeft);
    assert_eq!(e.cursor(), (2, 0));
}

#[test]
fn move_up_on_first_row_keeps_column() {
    let mut e = Editor::new(80, 24);
    e.apply(EditCommand::InsertText(chars("abc")));
    e.apply(EditCommand::MoveLeft);
    e.apply(EditCommand::MoveUp);
    assert_eq!(e.cursor(), (2, 0));
    assert_eq!(e.saved_column(), 2);
}

#[test]
fn move_down_on_last_row_keeps_column() {
    let mut e = Editor::new(80, 24);
    apply_all(
        &mut e,
        vec![EditCommand::InsertText(chars("abc")), EditCommand::Enter, EditCommand::InsertText(chars("de"))],
    );
    e.apply(EditCommand::MoveDown);
    assert_eq!(e.cursor(), (2, 1));
    assert_eq!(e.saved_column(), 2);
}

#[test]
fn backspace_at_buffer_start_is_noop() {
    let mut e = Editor::new(80, 24);
    e.apply(EditCommand::Backspace);
    assert_eq!(lines(&e), vec![""]);
    assert_eq!(e.cursor(), (0, 0));
}

#[test]
fn insert_in_middle_of_line() {
    let mut e = Editor::new(80, 24);
    e.apply(EditCommand::InsertText(chars("hlo")));
    e.apply(EditCommand::MoveLeft);
    e.apply(EditCommand::MoveLeft);
    e.apply(EditCommand::InsertChar('e'));
    e.apply(EditCommand::InsertText(chars("l")));
    assert_eq!(lines(&e), vec!["hello"]);
    assert_eq!(e.cursor(), (3, 0));
    e.apply(EditCommand::Backspace);
    assert_eq!(lines(&e), vec!["helo"]);
    assert_eq!(e.cursor(), (2, 0));
}

#[test]
fn enter_in_middle_splits_line() {
    let mut e = Editor::new(80, 24);
    e.apply(EditCommand::InsertText(chars("hello")));
    e.apply(EditCommand::MoveLeft);
    e.apply(EditCommand::MoveLeft);
    e.apply(EditCommand::Enter);
    assert_eq!(lines(&e), vec!["hel", "lo"]);
    assert_eq!(e.cursor(), (0, 1));
    assert_eq!(e.saved_column(), 0);
}

#[test]
fn vertical_scroll_follows_cursor() {
    let mut e = Editor::new(10, 2);
    apply_all(&mut e, vec![EditCommand::Enter, EditCommand::Enter, EditCommand::Enter]);
    assert_eq!(e.cursor(), (0, 3));
    assert_eq!(e.scroll(), (0, 2));
    for i in 0..4 {
        assert!(!e.is_dirty(i));
    }
    e.apply(EditCommand::MoveUp);
    assert_eq!(e.scroll(), (0, 2));
    e.apply(EditCommand::MoveUp);
    assert_eq!(e.cursor(), (0, 1));
    assert_eq!(e.scroll(), (0, 1));
}

#[test]
fn vertical_scroll_repaints_the_new_window() {
    let mut e = Editor::new(10, 2);
    apply_all(
        &mut e,
        vec![
            EditCommand::InsertChar('a'),
            EditCommand::Enter,
            EditCommand::InsertChar('b'),
            EditCommand::Enter,
            EditCommand::InsertChar('c'),
            EditCommand::MoveUp,
        ],
    );
    assert_eq!(e.scroll(), (0, 1));
    let plan = e.apply(EditCommand::MoveUp);
    assert_eq!(e.scroll(), (0, 0));
    assert_eq!(
        plan,
        vec![
            DrawOp::ClearLine(0),
            DrawOp::MoveTo(0, 0),
            DrawOp::Print(vec!['a']),
            DrawOp::ClearLine(1),
            DrawOp::MoveTo(0, 1),
            DrawOp::Print(vec!['b']),
            DrawOp::MoveTo(1, 0),
            DrawOp::Print(vec![CURSOR_GLYPH]),
        ]
    );
    assert!(!e.is_dirty(0) && !e.is_dirty(1));
}

#[test]
fn horizontal_scroll_follows_cursor() {
    let mut e = Editor::new(3, 2);
    e.apply(EditCommand::InsertText(chars("abcde")));
    assert_eq!(e.cursor(), (5, 0));
    assert_eq!(e.scroll(), (3, 0));
    e.apply(EditCommand::MoveLeft);
    assert_eq!(e.scroll(), (3, 0));
    e.apply(EditCommand::MoveLeft);
    e.apply(EditCommand::MoveLeft);
    assert_eq!(e.cursor(), (2, 0));
    assert_eq!(e.scroll(), (2, 0));
}

#[test]
fn narrow_document_scrolls_back_to_first_column() {
    let mut e = Editor::new(3, 2);
    e.apply(EditCommand::InsertText(chars("abcd")));
    assert_eq!(e.scroll(), (2, 0));
    e.apply(EditCommand::Backspace);
    e.apply(EditCommand::Backspace);
    assert_eq!(lines(&e), vec!["ab"]);
    assert_eq!(e.scroll(), (0, 0));
}

#[test]
fn frame_repaints_dirty_lines_and_fills_the_rest() {
    let mut e = Editor::new(5, 2);
    let plan = e.apply(EditCommand::InsertChar('a'));
    assert_eq!(
        plan,
        vec![
            DrawOp::ClearLine(0),
            DrawOp::MoveTo(0, 0),
            DrawOp::Print(vec!['a']),
            DrawOp::ClearLine(1),
            DrawOp::MoveTo(0, 1),
            DrawOp::Print(vec![FILLER]),
            DrawOp::MoveTo(1, 0),
            DrawOp::Print(vec![CURSOR_GLYPH]),
        ]
    );
    assert!(!e.is_dirty(0));
    let again = e.refresh();
    assert_eq!(
        again,
        vec![
            DrawOp::ClearLine(1),
            DrawOp::MoveTo(0, 1),
            DrawOp::Print(vec![FILLER]),
            DrawOp::MoveTo(1, 0),
            DrawOp::Print(vec![CURSOR_GLYPH]),
        ]
    );
}

#[test]
fn frame_shows_the_scrolled_window() {
    let mut e = Editor::new(3, 1);
    let plan = e.apply(EditCommand::InsertText(chars("abcde")));
    assert_eq!(
        plan,
        vec![
            DrawOp::ClearLine(0),
            DrawOp::MoveTo(0, 0),
            DrawOp::Print(vec!['d', 'e']),
            DrawOp::MoveTo(2, 0),
            DrawOp::Print(vec![CURSOR_GLYPH]),
        ]
    );
    e.apply(EditCommand::MoveLeft);
    e.apply(EditCommand::MoveLeft);
    e.apply(EditCommand::MoveLeft);
    let plan = e.apply(EditCommand::MoveLeft);
    assert_eq!(
        plan,
        vec![
            DrawOp::ClearLine(0),
            DrawOp::MoveTo(0, 0),
            DrawOp::Print(vec!['b', 'c', 'd']),
            DrawOp::MoveTo(0, 0),
            DrawOp::Print(vec![CURSOR_GLYPH]),
        ]
    );
}

#[test]
fn quit_is_recorded() {
    let mut e = Editor::new(5, 2);
    assert!(!e.is_quit_requested());
    e.apply(EditCommand::Quit);
    assert!(e.is_quit_requested());
}

#[test]
fn longest_line_is_measured() {
    let mut e = Editor::new(80, 24);
    apply_all(
        &mut e,
        vec![
            EditCommand::InsertText(chars("ab")),
            EditCommand::Enter,
            EditCommand::InsertText(chars("cdefg")),
            EditCommand::Enter,
            EditCommand::InsertText(chars("h")),
        ],
    );
    assert_eq!(e.longest_line(), 5);
}

#[test]
fn invariants_hold_along_a_session() {
    let (width, height) = (4, 3);
    let mut e = Editor::new(width, height);
    let cmds = vec![
        EditCommand::InsertText(chars("hello world")),
        EditCommand::Enter,
        EditCommand::InsertChar('a'),
        EditCommand::Enter,
        EditCommand::Enter,
        EditCommand::InsertText(chars("xyzzy")),
        EditCommand::MoveUp,
        EditCommand::MoveUp,
        EditCommand::MoveUp,
        EditCommand::MoveRight,
        EditCommand::MoveDown,
        EditCommand::Backspace,
        EditCommand::Backspace,
        EditCommand::Backspace,
        EditCommand::MoveLeft,
        EditCommand::MoveDown,
        EditCommand::MoveDown,
        EditCommand::MoveDown,
        EditCommand::MoveRight,
        EditCommand::Backspace,
        EditCommand::Enter,
        EditCommand::MoveUp,
    ];
    check_invariants(&e, width, height);
    for c in cmds {
        e.apply(c);
        check_invariants(&e, width, height);
    }
}
