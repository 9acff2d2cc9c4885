//! End-to-end flows through the widget facade: typing, accepting,
//! external resets, the pointer lifecycle and the popup animation.

use biblion::input::{Action, Key};
use biblion::text::EditKey;
use biblion::widget::{AutoCompleteInput, TextAlign};

fn chars(s: &str) -> Vec<char> {
    s.chars().collect()
}

fn strings(v: &[&str]) -> Vec<Vec<char>> {
    v.iter().map(|s| chars(s)).collect()
}

fn type_text(w: &mut AutoCompleteInput, s: &str) {
    for c in s.chars() {
        let (action, stop) = w.on_key_down(Key::Edit(EditKey::Char(c)));
        assert!(matches!(action, Action::Nothing));
        assert!(stop);
    }
}

#[test]
fn accept_with_selection_round_trip() {
    let mut w = AutoCompleteInput::new(chars(""), strings(&["Genesis", "Exodus"]));
    type_text(&mut w, "Gen");
    assert_eq!(*w.controller().buffer().content(), chars("Gen"));
    assert!(w.controller().suggest().is_open());
    let (action, stop) = w.on_key_down(Key::ArrowDown);
    assert!(matches!(action, Action::Nothing));
    assert!(stop);
    assert_eq!(w.controller().suggest().selected_index(), 0);
    let (action, stop) = w.on_key_down(Key::Enter);
    assert!(!stop);
    match action {
        Action::Submit(text) => assert_eq!(text, chars("Genesis")),
        Action::Nothing => panic!("enter with a highlighted suggestion must submit"),
    }
    assert_eq!(*w.controller().buffer().content(), chars("Genesis"));
    assert_eq!(w.controller().buffer().cursor(), 7);
    assert!(!w.controller().suggest().is_open());
    assert_eq!(w.controller().suggest().selected_index(), -1);
}

#[test]
fn enter_without_selection_submits_typed_text() {
    let mut w = AutoCompleteInput::new(chars(""), strings(&["Genesis"]));
    type_text(&mut w, "hello");
    let (action, _) = w.on_key_down(Key::Enter);
    match action {
        Action::Submit(text) => assert_eq!(text, chars("hello")),
        Action::Nothing => panic!("enter must submit the typed text"),
    }
    assert!(!w.controller().suggest().is_open());
}

#[test]
fn external_reset_overrides_in_progress_edit() {
    let mut w = AutoCompleteInput::new(chars(""), strings(&["Genesis"]));
    type_text(&mut w, "abc");
    assert_eq!(*w.controller().buffer().content(), chars("abc"));
    assert!(w.controller().buffer().history_len() > 0);
    w.sync_value(&chars("xyz"));
    assert_eq!(*w.controller().buffer().content(), chars("xyz"));
    assert_eq!(w.controller().buffer().current_selection_for_render(), None);
    assert_eq!(w.controller().buffer().history_len(), 0);
}

#[test]
fn external_sync_with_equal_value_changes_nothing() {
    let mut w = AutoCompleteInput::new(chars(""), strings(&["Genesis"]));
    type_text(&mut w, "abc");
    let history_before = w.controller().buffer().history_len();
    w.sync_value(&chars("abc"));
    assert_eq!(*w.controller().buffer().content(), chars("abc"));
    assert_eq!(w.controller().buffer().history_len(), history_before);
}

#[test]
fn pointer_lifecycle_opens_and_dismisses_popup() {
    let mut w = AutoCompleteInput::new(chars(""), strings(&["Genesis"]));
    type_text(&mut w, "Gen");
    w.on_pointer_up();
    assert!(!w.controller().is_focused());

    w.on_pointer_down(1);
    assert!(w.controller().is_focused());
    assert!(w.controller().is_dragging());
    assert!(w.controller().suggest().is_open());
    assert!(w.popup_renderable());

    w.on_pointer_up();
    assert!(w.controller().is_focused());
    assert!(!w.controller().is_dragging());
    assert!(w.controller().suggest().is_open());

    w.on_pointer_up();
    assert!(!w.controller().is_focused());
    assert!(!w.controller().suggest().is_open());
    assert!(!w.popup_renderable());
}

#[test]
fn focus_loss_cancels_suggestion_browsing() {
    let mut w = AutoCompleteInput::new(chars(""), strings(&["Genesis", "General"]));
    w.on_pointer_down(0);
    w.on_pointer_up();
    type_text(&mut w, "Gen");
    w.on_key_down(Key::ArrowDown);
    assert_eq!(w.controller().suggest().selected_index(), 0);
    w.on_pointer_up();
    assert!(!w.controller().is_focused());
    assert!(!w.controller().suggest().is_open());
    assert_eq!(w.controller().suggest().selected_index(), -1);
    assert_eq!(*w.controller().buffer().content(), chars("Gen"));
}

#[test]
fn pointer_down_on_empty_text_shows_no_popup() {
    let mut w = AutoCompleteInput::new(chars(""), strings(&["Genesis"]));
    w.on_pointer_down(0);
    assert!(w.controller().is_focused());
    assert!(!w.popup_renderable());
}

#[test]
fn pointer_drag_selects_text() {
    let mut w = AutoCompleteInput::new(chars(""), strings(&["Genesis"]));
    type_text(&mut w, "Genesis");
    w.on_pointer_down(1);
    w.on_pointer_move(4);
    assert_eq!(
        w.controller().buffer().current_selection_for_render(),
        Some((1, 4))
    );
    w.on_pointer_enter();
    w.on_pointer_up();
    assert!(!w.controller().is_dragging());
    assert!(w.controller().is_focused());
}

#[test]
fn escape_closes_and_releases_focus() {
    let mut w = AutoCompleteInput::new(chars(""), strings(&["Genesis"]));
    w.on_pointer_down(0);
    w.on_pointer_up();
    type_text(&mut w, "Gen");
    w.on_key_down(Key::ArrowDown);
    let (action, stop) = w.on_key_down(Key::Escape);
    assert!(matches!(action, Action::Nothing));
    assert!(!stop);
    assert!(!w.controller().suggest().is_open());
    assert!(!w.controller().is_focused());
    assert_eq!(w.controller().suggest().selected_index(), -1);
}

#[test]
fn navigation_wrap_restores_user_text_through_widget() {
    let mut w = AutoCompleteInput::new(chars(""), strings(&["Genesis", "General"]));
    type_text(&mut w, "Gen");
    w.on_key_down(Key::ArrowDown);
    w.on_key_down(Key::ArrowDown);
    assert_eq!(w.controller().suggest().selected_index(), 1);
    w.on_key_down(Key::ArrowDown);
    assert_eq!(w.controller().suggest().selected_index(), -1);
    assert_eq!(*w.controller().buffer().content(), chars("Gen"));
    assert_eq!(w.controller().buffer().cursor(), 3);
}

#[test]
fn hover_and_click_accept_suggestion() {
    let mut w = AutoCompleteInput::new(chars(""), strings(&["Genesis", "General"]));
    type_text(&mut w, "Gen");
    w.on_hover_suggestion(1);
    assert_eq!(w.controller().suggest().selected_index(), 1);
    let action = w.on_click_suggestion(1);
    match action {
        Action::Submit(text) => assert_eq!(text, chars("General")),
        Action::Nothing => panic!("a suggestion click must submit"),
    }
    assert_eq!(*w.controller().buffer().content(), chars("General"));
    assert_eq!(w.controller().buffer().cursor(), 7);
    assert!(!w.controller().suggest().is_open());
}

#[test]
fn click_out_of_range_is_ignored() {
    let mut w = AutoCompleteInput::new(chars(""), strings(&["Genesis"]));
    type_text(&mut w, "Gen");
    let action = w.on_click_suggestion(9);
    assert!(matches!(action, Action::Nothing));
    assert_eq!(*w.controller().buffer().content(), chars("Gen"));
}

#[test]
fn typing_resets_highlight_and_user_text() {
    let mut w = AutoCompleteInput::new(chars(""), strings(&["Genesis", "General"]));
    type_text(&mut w, "Gen");
    w.on_key_down(Key::ArrowDown);
    assert_eq!(w.controller().suggest().selected_index(), 0);
    type_text(&mut w, "e");
    assert_eq!(w.controller().suggest().selected_index(), -1);
    assert_eq!(*w.controller().suggest().user_text(), chars("Gene"));
}

#[test]
fn ghost_text_through_widget() {
    let mut w = AutoCompleteInput::new(chars(""), strings(&["Genesis"]));
    type_text(&mut w, "Gen");
    assert_eq!(w.ghost_text(), Some(chars("esis")));
    let mut w2 = AutoCompleteInput::new(chars(""), strings(&["Genesis"]));
    type_text(&mut w2, "Exo");
    assert_eq!(w2.ghost_text(), None);
}

#[test]
fn ime_preedit_is_shown_then_cleared_by_commit() {
    let mut w = AutoCompleteInput::new(chars(""), strings(&["Genesis"]));
    type_text(&mut w, "G");
    w.on_ime_preedit(chars("en"));
    assert_eq!(w.preedit_for_render(), Some(chars("en")));
    type_text(&mut w, "e");
    assert_eq!(w.preedit_for_render(), None);
}

#[test]
fn preedit_hidden_in_placeholder_mode() {
    let mut w = AutoCompleteInput::new(chars(""), strings(&["Genesis"])).placeholder(chars("Search"));
    w.on_ime_preedit(chars("en"));
    assert!(w.display_placeholder());
    assert_eq!(w.preedit_for_render(), None);
}

#[test]
fn popup_animation_progress_and_idempotent_ticks() {
    let mut w = AutoCompleteInput::new(chars(""), strings(&["Genesis"]));
    assert!(!w.animator().is_animating());
    type_text(&mut w, "Gen");
    assert!(w.animator().opening());
    assert!(w.animator().is_animating());
    w.tick(75);
    assert_eq!(w.animator().progress_ms(), 75);
    assert_eq!(w.animator().progress_permille(), 500);
    w.tick(75);
    assert_eq!(w.animator().progress_ms(), 75);
    w.tick(150);
    assert_eq!(w.animator().progress_ms(), 150);
    assert!(!w.animator().is_animating());
    w.on_key_down(Key::Escape);
    assert!(!w.animator().opening());
    assert!(w.animator().is_animating());
    w.tick(30);
    assert_eq!(w.animator().progress_ms(), 120);
    w.tick(150);
    assert_eq!(w.animator().progress_ms(), 0);
    assert!(!w.animator().is_animating());
}

#[test]
fn popup_stays_renderable_while_closing_animation_runs() {
    let mut w = AutoCompleteInput::new(chars(""), strings(&["Genesis"]));
    w.on_pointer_down(0);
    w.on_pointer_up();
    type_text(&mut w, "Gen");
    w.tick(150);
    assert!(w.popup_renderable());
    w.on_key_down(Key::Escape);
    assert!(w.popup_renderable());
    w.tick(150);
    assert!(!w.popup_renderable());
}

#[test]
fn disabling_releases_hover_but_keeps_text() {
    let mut w = AutoCompleteInput::new(chars(""), strings(&["Genesis"]));
    type_text(&mut w, "Gen");
    w.on_pointer_enter();
    w.set_enabled(false);
    assert!(!w.is_enabled());
    assert_eq!(*w.controller().buffer().content(), chars("Gen"));
    assert_eq!(w.cursor_for_render(), None);
}

#[test]
fn cursor_shown_only_when_enabled_and_focused() {
    let mut w = AutoCompleteInput::new(chars(""), strings(&["Genesis"]));
    type_text(&mut w, "Gen");
    assert_eq!(w.cursor_for_render(), None);
    w.on_pointer_down(2);
    assert_eq!(w.cursor_for_render(), Some(2));
    assert_eq!(w.selection_for_render(), None);
}

#[test]
fn builders_configure_the_widget() {
    let w = AutoCompleteInput::new(chars("x"), strings(&["Genesis"]))
        .enabled(false)
        .placeholder(chars("Search: Juan 1:3"))
        .auto_focus(true)
        .width(320)
        .text_align(TextAlign::Center);
    assert!(!w.is_enabled());
    assert!(w.wants_auto_focus());
    assert_eq!(w.width_px(), 320);
    assert_eq!(w.alignment(), TextAlign::Center);
    assert_eq!(*w.placeholder_text(), Some(chars("Search: Juan 1:3")));
    assert!(!w.display_placeholder());
}

#[test]
fn meta_key_is_ignored() {
    let mut w = AutoCompleteInput::new(chars(""), strings(&["Genesis"]));
    type_text(&mut w, "Gen");
    let before = w.controller().buffer().content().clone();
    let (action, stop) = w.on_key_down(Key::Meta);
    assert!(matches!(action, Action::Nothing));
    assert!(!stop);
    assert_eq!(*w.controller().buffer().content(), before);
}
