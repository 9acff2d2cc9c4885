//! Behaviour of the text buffer: edits, clamping, selection drags and
//! the undo state.

use biblion::text::{EditKey, TextBuffer};

fn chars(s: &str) -> Vec<char> {
    s.chars().collect()
}

#[test]
fn typing_inserts_at_cursor() {
    let mut b = TextBuffer::new();
    b.process_key(EditKey::Char('a'));
    b.process_key(EditKey::Char('b'));
    b.process_key(EditKey::Char('c'));
    assert_eq!(*b.content(), chars("abc"));
    assert_eq!(b.cursor(), 3);
    b.process_key(EditKey::Left);
    b.process_key(EditKey::Char('x'));
    assert_eq!(*b.content(), chars("abxc"));
    assert_eq!(b.cursor(), 3);
}

#[test]
fn backspace_and_delete() {
    let mut b = TextBuffer::from_text(chars("abc"));
    b.move_cursor_to(3);
    b.process_key(EditKey::Backspace);
    assert_eq!(*b.content(), chars("ab"));
    assert_eq!(b.cursor(), 2);
    b.move_cursor_to(0);
    b.process_key(EditKey::Delete);
    assert_eq!(*b.content(), chars("b"));
    assert_eq!(b.cursor(), 0);
    b.process_key(EditKey::Backspace);
    assert_eq!(*b.content(), chars("b"));
}

#[test]
fn arrows_clamp_and_clear_selection() {
    let mut b = TextBuffer::from_text(chars("ab"));
    b.process_key(EditKey::Left);
    assert_eq!(b.cursor(), 0);
    b.process_key(EditKey::Right);
    b.process_key(EditKey::Right);
    b.process_key(EditKey::Right);
    assert_eq!(b.cursor(), 2);
}

#[test]
fn move_cursor_is_clamped() {
    let mut b = TextBuffer::from_text(chars("abc"));
    b.move_cursor_to(100);
    assert_eq!(b.cursor(), 3);
    b.move_cursor_to(1);
    assert_eq!(b.cursor(), 1);
}

#[test]
fn drag_builds_selection_both_ways() {
    let mut b = TextBuffer::from_text(chars("abcdef"));
    b.begin_drag(1);
    assert_eq!(b.cursor(), 1);
    b.drag_to(4);
    assert_eq!(b.current_selection_for_render(), Some((1, 4)));
    assert_eq!(b.cursor(), 4);
    b.drag_to(0);
    assert_eq!(b.current_selection_for_render(), Some((0, 1)));
    b.release_drag();
    assert_eq!(b.current_selection_for_render(), Some((0, 1)));
}

#[test]
fn drag_offsets_are_clamped() {
    let mut b = TextBuffer::from_text(chars("ab"));
    b.begin_drag(50);
    assert_eq!(b.cursor(), 2);
    b.drag_to(100);
    assert_eq!(b.current_selection_for_render(), None);
    assert_eq!(b.cursor(), 2);
}

#[test]
fn typing_replaces_selection() {
    let mut b = TextBuffer::from_text(chars("abcdef"));
    b.begin_drag(1);
    b.drag_to(4);
    b.release_drag();
    b.process_key(EditKey::Char('X'));
    assert_eq!(*b.content(), chars("aXef"));
    assert_eq!(b.cursor(), 2);
    assert_eq!(b.current_selection_for_render(), None);
}

#[test]
fn backspace_removes_selection() {
    let mut b = TextBuffer::from_text(chars("abcdef"));
    b.begin_drag(2);
    b.drag_to(5);
    b.release_drag();
    b.process_key(EditKey::Backspace);
    assert_eq!(*b.content(), chars("abf"));
    assert_eq!(b.cursor(), 2);
}

#[test]
fn set_all_clamps_cursor_and_clears_state() {
    let mut b = TextBuffer::from_text(chars("abcdef"));
    b.move_cursor_to(6);
    b.begin_drag(1);
    b.drag_to(3);
    b.process_key(EditKey::Char('q'));
    assert!(b.history_len() > 0);
    b.set_all(&chars("xy"));
    assert_eq!(*b.content(), chars("xy"));
    assert_eq!(b.cursor(), 2);
    assert_eq!(b.current_selection_for_render(), None);
    assert_eq!(b.history_len(), 0);
}

#[test]
fn set_all_is_idempotent_on_current_content() {
    let mut b = TextBuffer::from_text(chars("abc"));
    b.move_cursor_to(2);
    b.set_all(&chars("abc"));
    let cursor_once = b.cursor();
    let content_once = b.content().clone();
    b.set_all(&chars("abc"));
    assert_eq!(b.cursor(), cursor_once);
    assert_eq!(*b.content(), content_once);
    assert_eq!(b.history_len(), 0);
}

#[test]
fn delete_range_is_clamped() {
    let mut b = TextBuffer::from_text(chars("abcdef"));
    b.delete_range(4, 100);
    assert_eq!(*b.content(), chars("abcd"));
    b.delete_range(3, 1);
    assert_eq!(*b.content(), chars("abcd"));
    b.delete_range(0, 1);
    assert_eq!(*b.content(), chars("bcd"));
}

#[test]
fn edits_record_history() {
    let mut b = TextBuffer::new();
    assert_eq!(b.history_len(), 0);
    b.process_key(EditKey::Char('a'));
    assert_eq!(b.history_len(), 1);
    b.process_key(EditKey::Backspace);
    assert_eq!(b.history_len(), 2);
}
