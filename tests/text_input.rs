use termview::{Input, InputMode};

fn typed(s: &str) -> Input {
    let mut input = Input::new();
    for c in s.chars() {
        input.enter_char(c);
    }
    input
}

#[test]
fn new_input_is_empty() {
    let input = Input::new();
    assert!(input.text().is_empty());
    assert_eq!(input.cursor(), 0);
    assert_eq!(input.mode(), InputMode::Normal);
    assert!(input.messages().is_empty());
}

#[test]
fn delete_backward_down_to_empty() {
    let mut input = typed("abc");
    assert_eq!(input.cursor(), 3);
    input.delete_char();
    assert_eq!(input.text(), &vec!['a', 'b']);
    assert_eq!(input.cursor(), 2);
    input.delete_char();
    input.delete_char();
    assert!(input.text().is_empty());
    assert_eq!(input.cursor(), 0);
    input.delete_char();
    assert!(input.text().is_empty());
    assert_eq!(input.cursor(), 0);
}

#[test]
fn delete_at_start_keeps_text() {
    let mut input = typed("xy");
    input.move_cursor_left();
    input.move_cursor_left();
    assert_eq!(input.cursor(), 0);
    input.delete_char();
    assert_eq!(input.text(), &vec!['x', 'y']);
    assert_eq!(input.cursor(), 0);
}

#[test]
fn delete_in_middle_removes_char_before_cursor() {
    let mut input = typed("abcd");
    input.move_cursor_left();
    input.delete_char();
    assert_eq!(input.text(), &vec!['a', 'b', 'd']);
    assert_eq!(input.cursor(), 2);
}

#[test]
fn left_then_right_returns_to_position() {
    let mut input = typed("abcd");
    for p in (1..=4).rev() {
        assert_eq!(input.cursor(), p);
        input.move_cursor_left();
        input.move_cursor_right();
        assert_eq!(input.cursor(), p);
        input.move_cursor_left();
    }
    assert_eq!(input.cursor(), 0);
    input.move_cursor_left();
    assert_eq!(input.cursor(), 0);
    input.move_cursor_right();
    assert_eq!(input.cursor(), 1);
}

#[test]
fn right_stops_at_end() {
    let mut input = typed("ab");
    input.move_cursor_right();
    assert_eq!(input.cursor(), 2);
}

#[test]
fn insert_in_middle_with_multibyte_chars() {
    let mut input = typed("é€");
    input.move_cursor_left();
    input.enter_char('ß');
    assert_eq!(input.text(), &vec!['é', 'ß', '€']);
    assert_eq!(input.cursor(), 2);
    input.move_cursor_right();
    assert_eq!(input.cursor(), 3);
    input.move_cursor_right();
    assert_eq!(input.cursor(), 3);
}

#[test]
fn length_is_inserts_minus_removals() {
    let mut input = Input::new();
    input.delete_char();
    input.enter_char('a');
    input.enter_char('b');
    input.move_cursor_left();
    input.move_cursor_left();
    input.delete_char();
    input.enter_char('c');
    input.delete_char();
    input.enter_char('d');
    // four inserts, one delete that removed a character
    assert_eq!(input.text().len(), 3);
    assert_eq!(input.text(), &vec!['d', 'a', 'b']);
}

#[test]
fn clamp_cursor_limits_to_length() {
    let input = typed("abc");
    assert_eq!(input.clamp_cursor(2), 2);
    assert_eq!(input.clamp_cursor(3), 3);
    assert_eq!(input.clamp_cursor(10), 3);
}

#[test]
fn reset_cursor_keeps_text() {
    let mut input = typed("abc");
    input.reset_cursor();
    assert_eq!(input.cursor(), 0);
    assert_eq!(input.text(), &vec!['a', 'b', 'c']);
}

#[test]
fn submit_appends_and_resets() {
    let mut input = typed("hey");
    input.move_cursor_left();
    input.submit_message();
    assert!(input.text().is_empty());
    assert_eq!(input.cursor(), 0);
    assert_eq!(input.messages(), &vec![vec!['h', 'e', 'y']]);
    input.submit_message();
    assert!(input.text().is_empty());
    assert_eq!(input.cursor(), 0);
    assert_eq!(input.messages(), &vec![vec!['h', 'e', 'y'], vec![]]);
}

#[test]
fn set_mode_changes_only_mode() {
    let mut input = typed("a");
    input.set_mode(InputMode::Editing);
    assert_eq!(input.mode(), InputMode::Editing);
    assert_eq!(input.text(), &vec!['a']);
    assert_eq!(input.cursor(), 1);
}
