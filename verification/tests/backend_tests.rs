use text_editor::backend::{Action, Backend};

/// A buffer holding `text`, built by inserting one character at a time; the
/// cursor ends up at the end of the last line.
fn buffer_with(text: &str) -> Backend {
    let mut b = Backend::default();
    for c in text.chars() {
        b.action(Action::Insert(c));
    }
    b
}

#[test]
fn starts_empty() {
    let b = Backend::default();
    assert_eq!(b.content(), "");
    assert_eq!(b.get_cursor_position(), (0, 0));
}

#[test]
fn three_inserts() {
    let mut b = Backend::default();
    b.action(Action::Insert('a'));
    b.action(Action::Insert('b'));
    b.action(Action::Insert('c'));
    assert_eq!(b.content(), "abc");
    assert_eq!(b.get_cursor_position(), (0, 3));
}

#[test]
fn enter_at_line_end() {
    let mut b = buffer_with("abc");
    assert_eq!(b.get_cursor_position(), (0, 3));
    b.action(Action::Enter);
    assert_eq!(b.content(), "abc\n");
    assert_eq!(b.get_cursor_position(), (1, 0));
}

#[test]
fn enter_mid_line_splits() {
    let mut b = buffer_with("abcd");
    b.action(Action::Left);
    b.action(Action::Left);
    assert_eq!(b.get_cursor_position(), (0, 2));
    b.action(Action::Enter);
    assert_eq!(b.content(), "ab\ncd");
    assert_eq!(b.get_cursor_position(), (1, 0));
}

#[test]
fn backspace_joins_lines() {
    let mut b = buffer_with("ab\ncd");
    b.action(Action::Home);
    assert_eq!(b.get_cursor_position(), (1, 0));
    b.action(Action::Backspace);
    assert_eq!(b.content(), "abcd");
    assert_eq!(b.get_cursor_position(), (0, 2));
}

#[test]
fn backspace_removes_before_cursor() {
    let mut b = buffer_with("abc");
    b.action(Action::Left);
    assert_eq!(b.get_cursor_position(), (0, 2));
    b.action(Action::Backspace);
    assert_eq!(b.content(), "ac");
    assert_eq!(b.get_cursor_position(), (0, 1));
}

#[test]
fn backspace_at_origin_noop() {
    let mut b = buffer_with("ab");
    b.action(Action::PageUp);
    b.action(Action::Backspace);
    assert_eq!(b.content(), "ab");
    assert_eq!(b.get_cursor_position(), (0, 0));
}

#[test]
fn delete_in_line() {
    let mut b = buffer_with("abc");
    b.action(Action::PageUp);
    b.action(Action::Right);
    assert_eq!(b.get_cursor_position(), (0, 1));
    b.action(Action::Delete);
    assert_eq!(b.content(), "ac");
    assert_eq!(b.get_cursor_position(), (0, 1));
}

#[test]
fn delete_at_line_end_joins() {
    let mut b = buffer_with("ab\ncd");
    b.action(Action::PageUp);
    b.action(Action::End);
    assert_eq!(b.get_cursor_position(), (0, 2));
    b.action(Action::Delete);
    assert_eq!(b.content(), "abcd");
    assert_eq!(b.get_cursor_position(), (0, 2));
}

#[test]
fn delete_at_document_end_noop() {
    let mut b = buffer_with("ab");
    assert_eq!(b.get_cursor_position(), (0, 2));
    b.action(Action::Delete);
    assert_eq!(b.content(), "ab");
    assert_eq!(b.get_cursor_position(), (0, 2));
}

#[test]
fn page_down_page_up() {
    let mut b = buffer_with("a\nbb\nccc");
    b.action(Action::PageUp);
    assert_eq!(b.get_cursor_position(), (0, 0));
    b.action(Action::PageDown);
    assert_eq!(b.get_cursor_position(), (2, 3));
    b.action(Action::PageUp);
    assert_eq!(b.get_cursor_position(), (0, 0));
}

#[test]
fn control_insert_is_noop() {
    let mut b = buffer_with("abc");
    b.action(Action::Insert('\u{7}'));
    assert_eq!(b.content(), "abc");
    assert_eq!(b.get_cursor_position(), (0, 3));
    b.action(Action::Insert('\u{1b}'));
    b.action(Action::Insert('\u{7f}'));
    b.action(Action::Insert('\u{92}'));
    assert_eq!(b.content(), "abc");
    assert_eq!(b.get_cursor_position(), (0, 3));
}

#[test]
fn tab_insert_is_kept() {
    let mut b = Backend::default();
    b.action(Action::Insert('\t'));
    assert_eq!(b.content(), "\t");
    assert_eq!(b.get_cursor_position(), (0, 1));
}

#[test]
fn newline_insert_acts_as_enter() {
    let mut b = buffer_with("ab");
    b.action(Action::Left);
    b.action(Action::Insert('\n'));
    assert_eq!(b.content(), "a\nb");
    assert_eq!(b.get_cursor_position(), (1, 0));
}

#[test]
fn enter_backspace_round_trip() {
    let mut b = buffer_with("hello");
    b.action(Action::Left);
    b.action(Action::Left);
    b.action(Action::Left);
    assert_eq!(b.get_cursor_position(), (0, 2));
    b.action(Action::Enter);
    b.action(Action::Backspace);
    assert_eq!(b.content(), "hello");
    assert_eq!(b.get_cursor_position(), (0, 2));
}

#[test]
fn left_at_origin_noop() {
    let mut b = buffer_with("ab");
    b.action(Action::PageUp);
    b.action(Action::Left);
    assert_eq!(b.content(), "ab");
    assert_eq!(b.get_cursor_position(), (0, 0));
}

#[test]
fn right_at_document_end_noop() {
    let mut b = buffer_with("a\nbc");
    assert_eq!(b.get_cursor_position(), (1, 2));
    b.action(Action::Right);
    assert_eq!(b.content(), "a\nbc");
    assert_eq!(b.get_cursor_position(), (1, 2));
}

#[test]
fn right_wraps_to_next_line() {
    let mut b = buffer_with("ab\ncd");
    b.action(Action::PageUp);
    b.action(Action::End);
    assert_eq!(b.get_cursor_position(), (0, 2));
    b.action(Action::Right);
    assert_eq!(b.get_cursor_position(), (1, 0));
}

#[test]
fn up_at_first_row_noop() {
    let mut b = buffer_with("abc");
    b.action(Action::Up);
    assert_eq!(b.content(), "abc");
    assert_eq!(b.get_cursor_position(), (0, 3));
}

#[test]
fn down_at_last_row_noop() {
    let mut b = buffer_with("abc");
    b.action(Action::Down);
    assert_eq!(b.content(), "abc");
    assert_eq!(b.get_cursor_position(), (0, 3));
}

#[test]
fn vertical_moves_clamp_column() {
    let mut b = buffer_with("abcd\nx");
    b.action(Action::PageUp);
    b.action(Action::End);
    assert_eq!(b.get_cursor_position(), (0, 4));
    b.action(Action::Down);
    assert_eq!(b.get_cursor_position(), (1, 1));
    b.action(Action::Up);
    assert_eq!(b.get_cursor_position(), (0, 1));
}

#[test]
fn home_and_end() {
    let mut b = buffer_with("abc");
    b.action(Action::Home);
    assert_eq!(b.get_cursor_position(), (0, 0));
    b.action(Action::End);
    assert_eq!(b.get_cursor_position(), (0, 3));
}

#[test]
fn escape_is_noop() {
    let mut b = buffer_with("ab\ncd");
    b.action(Action::Escape);
    assert_eq!(b.content(), "ab\ncd");
    assert_eq!(b.get_cursor_position(), (1, 2));
}

#[test]
fn insert_mid_line() {
    let mut b = buffer_with("abc");
    b.action(Action::Home);
    b.action(Action::Right);
    b.action(Action::Insert('x'));
    assert_eq!(b.content(), "axbc");
    assert_eq!(b.get_cursor_position(), (0, 2));
}
