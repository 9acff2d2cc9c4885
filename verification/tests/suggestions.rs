//! Behaviour of the suggestion controller: filtering reaction,
//! navigation wrapping and ghost text.

use biblion::suggest::SuggestionController;
use biblion::text::TextBuffer;

fn chars(s: &str) -> Vec<char> {
    s.chars().collect()
}

fn strings(v: &[&str]) -> Vec<Vec<char>> {
    v.iter().map(|s| chars(s)).collect()
}

#[test]
fn content_change_filters_and_opens() {
    let mut sc = SuggestionController::new();
    let candidates = strings(&["Genesis", "Exodus", "General"]);
    sc.on_content_change(&candidates, &chars("Gen"));
    assert_eq!(*sc.filtered(), strings(&["Genesis", "General"]));
    assert!(sc.is_open());
    sc.on_content_change(&candidates, &chars(""));
    assert!(sc.filtered().is_empty());
    assert!(!sc.is_open());
}

#[test]
fn navigate_down_wraps_to_unselected_and_restores_user_text() {
    let mut sc = SuggestionController::new();
    let mut buf = TextBuffer::from_text(chars("Gen"));
    let candidates = strings(&["Genesis", "General"]);
    sc.set_user_text(&chars("Gen"));
    sc.on_content_change(&candidates, &chars("Gen"));
    assert_eq!(sc.selected_index(), -1);
    sc.navigate_down(&mut buf);
    assert_eq!(sc.selected_index(), 0);
    sc.navigate_down(&mut buf);
    assert_eq!(sc.selected_index(), 1);
    sc.navigate_down(&mut buf);
    assert_eq!(sc.selected_index(), -1);
    assert_eq!(*buf.content(), chars("Gen"));
    assert_eq!(buf.cursor(), 3);
}

#[test]
fn navigate_up_wraps_to_last_index() {
    let mut sc = SuggestionController::new();
    let mut buf = TextBuffer::from_text(chars("Gen"));
    let candidates = strings(&["Genesis", "General"]);
    sc.set_user_text(&chars("Gen"));
    sc.on_content_change(&candidates, &chars("Gen"));
    assert_eq!(sc.selected_index(), -1);
    sc.navigate_up(&mut buf);
    assert_eq!(sc.selected_index(), 1);
    sc.navigate_up(&mut buf);
    assert_eq!(sc.selected_index(), 0);
    sc.navigate_up(&mut buf);
    assert_eq!(sc.selected_index(), -1);
    assert_eq!(*buf.content(), chars("Gen"));
}

#[test]
fn navigation_ignores_empty_filtered_list() {
    let mut sc = SuggestionController::new();
    let mut buf = TextBuffer::from_text(chars("zzz"));
    let candidates = strings(&["Genesis"]);
    sc.on_content_change(&candidates, &chars("zzz"));
    assert!(sc.filtered().is_empty());
    sc.navigate_down(&mut buf);
    assert_eq!(sc.selected_index(), -1);
    sc.navigate_up(&mut buf);
    assert_eq!(sc.selected_index(), -1);
    assert_eq!(*buf.content(), chars("zzz"));
}

#[test]
fn ghost_text_completes_prefix() {
    let mut sc = SuggestionController::new();
    let candidates = strings(&["Genesis"]);
    sc.on_content_change(&candidates, &chars("Gen"));
    let ghost = sc.ghost_text(&chars("Gen"));
    assert_eq!(ghost, Some(chars("esis")));
}

#[test]
fn ghost_text_is_case_insensitive_keeps_candidate_case() {
    let mut sc = SuggestionController::new();
    let candidates = strings(&["Genesis"]);
    sc.on_content_change(&candidates, &chars("gEn"));
    let ghost = sc.ghost_text(&chars("gEn"));
    assert_eq!(ghost, Some(chars("esis")));
}

#[test]
fn ghost_text_absent_without_match() {
    let mut sc = SuggestionController::new();
    let candidates = strings(&["Genesis"]);
    sc.on_content_change(&candidates, &chars("Exo"));
    assert_eq!(sc.ghost_text(&chars("Exo")), None);
}

#[test]
fn ghost_text_absent_when_not_a_prefix() {
    let mut sc = SuggestionController::new();
    let candidates = strings(&["Genesis"]);
    sc.on_content_change(&candidates, &chars("nes"));
    assert!(!sc.filtered().is_empty());
    assert_eq!(sc.ghost_text(&chars("nes")), None);
}

#[test]
fn ghost_text_follows_highlight() {
    let mut sc = SuggestionController::new();
    let mut buf = TextBuffer::from_text(chars("Gen"));
    let candidates = strings(&["General", "Genesis"]);
    sc.set_user_text(&chars("Gen"));
    sc.on_content_change(&candidates, &chars("Gen"));
    assert_eq!(sc.ghost_text(&chars("Gen")), Some(chars("eral")));
    sc.navigate_down(&mut buf);
    sc.navigate_down(&mut buf);
    assert_eq!(sc.selected_index(), 1);
    assert_eq!(sc.ghost_text(&chars("Gen")), Some(chars("esis")));
}

#[test]
fn hover_ignores_out_of_range_rows() {
    let mut sc = SuggestionController::new();
    let candidates = strings(&["Genesis"]);
    sc.on_content_change(&candidates, &chars("Gen"));
    sc.hover(0);
    assert_eq!(sc.selected_index(), 0);
    sc.hover(5);
    assert_eq!(sc.selected_index(), 0);
}
