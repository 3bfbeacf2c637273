use bbiribarabu::keys::KeyCode;
use bbiribarabu::line_edit::LineEdit;

fn field(text: &str) -> LineEdit {
    let mut f = LineEdit::new();
    f.set_text(text, 80);
    f
}

fn state(f: &LineEdit) -> (String, usize, usize) {
    (f.text().to_string(), f.cursor(), f.scroll_x())
}

#[test]
fn new_field_is_empty() {
    let f = LineEdit::new();
    assert_eq!(state(&f), (String::new(), 0, 0));
}

#[test]
fn typing_inserts_at_the_cursor() {
    let mut f = LineEdit::new();
    for c in "abc".chars() {
        f.insert(c, 80);
    }
    assert_eq!(state(&f), ("abc".to_string(), 3, 0));
    f.left(80);
    f.left(80);
    f.insert('한', 80);
    assert_eq!(state(&f), ("a한bc".to_string(), 2, 0));
    f.home();
    f.insert('>', 80);
    assert_eq!(state(&f), (">a한bc".to_string(), 1, 0));
}

#[test]
fn backspace_and_delete_remove_one_character() {
    let mut f = field("a한b😀");
    assert_eq!(f.cursor(), 4);
    f.backspace(80);
    assert_eq!(state(&f), ("a한b".to_string(), 3, 0));
    f.left(80);
    f.backspace(80);
    assert_eq!(state(&f), ("ab".to_string(), 1, 0));
    f.delete(80);
    assert_eq!(state(&f), ("a".to_string(), 1, 0));
    f.delete(80);
    assert_eq!(state(&f), ("a".to_string(), 1, 0));
    f.home();
    f.backspace(80);
    assert_eq!(state(&f), ("a".to_string(), 0, 0));
    f.delete(80);
    assert_eq!(state(&f), (String::new(), 0, 0));
}

#[test]
fn cursor_moves_stay_inside_the_text() {
    let mut f = field("ab");
    f.right(80);
    assert_eq!(f.cursor(), 2);
    f.left(80);
    f.left(80);
    f.left(80);
    assert_eq!(f.cursor(), 0);
    f.end(80);
    assert_eq!(f.cursor(), 2);
    f.home();
    assert_eq!(f.cursor(), 0);
    f.right(80);
    assert_eq!(f.cursor(), 1);
}

#[test]
fn scroll_follows_the_cursor() {
    let mut f = LineEdit::new();
    for c in "0123456789abcdef".chars() {
        f.insert(c, 5);
    }
    assert_eq!(f.scroll_x(), 12);
    f.home();
    assert_eq!(f.scroll_x(), 0);
    f.end(5);
    assert_eq!(f.scroll_x(), 12);
    for _ in 0..6 {
        f.left(5);
    }
    assert_eq!((f.cursor(), f.scroll_x()), (10, 10));
    f.right(5);
    assert_eq!((f.cursor(), f.scroll_x()), (11, 10));
}

#[test]
fn keys_are_applied() {
    let mut f = LineEdit::new();
    f.apply_key(KeyCode::Char('x'), 80);
    f.apply_key(KeyCode::Char('y'), 80);
    f.apply_key(KeyCode::Left, 80);
    f.apply_key(KeyCode::Backspace, 80);
    assert_eq!(state(&f), ("y".to_string(), 0, 0));
    f.apply_key(KeyCode::End, 80);
    f.apply_key(KeyCode::Char('z'), 80);
    f.apply_key(KeyCode::Home, 80);
    f.apply_key(KeyCode::Delete, 80);
    f.apply_key(KeyCode::Right, 80);
    assert_eq!(state(&f), ("z".to_string(), 1, 0));
    f.apply_key(KeyCode::Enter, 80);
    f.apply_key(KeyCode::F(3), 80);
    f.apply_key(KeyCode::Up, 80);
    assert_eq!(state(&f), ("z".to_string(), 1, 0));
}

#[test]
fn clear_and_set_text() {
    let mut f = field("hello");
    assert_eq!(state(&f), ("hello".to_string(), 5, 0));
    f.clear();
    assert_eq!(state(&f), (String::new(), 0, 0));
    f.set_text("0123456789", 4);
    assert_eq!(state(&f), ("0123456789".to_string(), 10, 7));
}

#[test]
fn shown_part_and_cursor_column() {
    let mut f = field("hello");
    assert_eq!(f.shown(0), (String::new(), None));
    assert_eq!(f.shown(10), ("hello".to_string(), Some(5)));
    let mut f = LineEdit::new();
    f.set_text("0123456789abcdef", 5);
    assert_eq!(f.scroll_x(), 12);
    assert_eq!(f.shown(5), ("cdef".to_string(), Some(4)));
    assert_eq!(f.shown(10), ("789abcdef".to_string(), Some(9)));
    assert_eq!(f.scroll_x(), 7);
    f.home();
    assert_eq!(f.shown(4), ("0123".to_string(), Some(0)));
}
