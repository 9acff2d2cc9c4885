//! The central input state machine: keyboard, pointer and IME events.
//!
//! The controller owns the text buffer and the suggestion controller and
//! routes every raw input event: dedicated keys steer the popup and the
//! highlight, every other key edits the text; pointer presses focus the
//! widget and start a text-selection drag; a global pointer release ends
//! the drag or dismisses the widget; IME composition updates keep a
//! transient pre-edit string. Accepting a suggestion — by keyboard or by
//! pointer — replaces the text, closes the popup and reports the
//! accepted text for the submit callback. No event can fail: malformed
//! or out-of-range event data is ignored or clamped.

use vstd::prelude::*;

use crate::fuzzy::{spec_filter_suggestions, string_views};
use crate::suggest::{nav_down_v, nav_up_v, refresh_v, restore_v, fresh_sugg, SuggView,
    SuggestionController};
use crate::text::{clone_chars, fresh_buf, process_key_v, begin_drag_v, drag_to_v, release_drag_v,
    BufView, EditKey, TextBuffer};

verus! {

/// Pointer-hover state of the text region.
#[derive(Debug, Default, PartialEq, Eq, Structural, Clone, Copy)]
pub enum AutoCompleteInputStatus {
    /// The pointer is elsewhere.
    #[default]
    Idle,
    /// The pointer hovers over the text region.
    Hovering,
}

/// A keyboard key as the widget distinguishes it.
#[derive(Clone, Copy, Debug)]
pub enum Key {
    /// Submit: accept the highlighted suggestion or the typed text.
    Enter,
    /// Move the highlight one suggestion down.
    ArrowDown,
    /// Move the highlight one suggestion up.
    ArrowUp,
    /// Dismiss the popup and release focus.
    Escape,
    /// A modifier key the widget ignores.
    Meta,
    /// Any other key: forwarded to the text buffer.
    Edit(EditKey),
}

/// The observable effect of an event beyond the state change.
#[derive(Debug)]
pub enum Action {
    /// Nothing to report.
    Nothing,
    /// The submit callback must fire with this text.
    Submit(Vec<char>),
}

/// The mathematical state of an [`InputInteractionController`].
#[verifier::ext_equal]
pub ghost struct CtrlView {
    /// The text buffer.
    pub buf: BufView,
    /// The suggestion state.
    pub sugg: SuggView,
    /// Whether the widget holds keyboard focus.
    pub is_focused: bool,
    /// Whether a pointer button is held after a press inside the widget.
    pub is_dragging: bool,
    /// Transient IME composition text, shown but not committed.
    pub ime_preedit: Option<Seq<char>>,
    /// Pointer-hover state of the text region.
    pub status: AutoCompleteInputStatus,
}

impl CtrlView {
    /// The controller invariant: both owned components keep theirs.
    pub open spec fn inv(self) -> bool {
        &&& self.buf.inv()
        &&& self.sugg.inv()
    }
}

/// A freshly created controller over an initial text: unfocused, not
/// dragging, no composition, pointer elsewhere.
pub open spec fn fresh_ctrl(text: Seq<char>) -> CtrlView {
    CtrlView {
        buf: fresh_buf(text),
        sugg: fresh_sugg(),
        is_focused: false,
        is_dragging: false,
        ime_preedit: None,
        status: AutoCompleteInputStatus::Idle,
    }
}

/// Acceptance of the text `chosen`: the buffer holds it with the cursor
/// at its end, the filtered list is recomputed for it, the highlight is
/// dropped and the popup closes.
pub open spec fn accept_v(c: CtrlView, candidates: Seq<Seq<char>>, chosen: Seq<char>) -> CtrlView {
    CtrlView {
        buf: restore_v(c.buf, chosen),
        sugg: SuggView {
            filtered: spec_filter_suggestions(candidates, chosen),
            selected: -1,
            is_open: false,
            user_text: c.sugg.user_text,
        },
        ..c
    }
}

/// An edit key: the buffer processes it, the result becomes the new
/// user text, the highlight is dropped, the filtered list follows the
/// new content (open when non-empty, closed when empty), and any IME
/// pre-edit is considered committed.
pub open spec fn edit_v(c: CtrlView, candidates: Seq<Seq<char>>, k: EditKey) -> CtrlView {
    let b = process_key_v(c.buf, k);
    CtrlView {
        buf: b,
        sugg: SuggView {
            filtered: spec_filter_suggestions(candidates, b.content),
            selected: -1,
            user_text: b.content,
            is_open: b.content.len() > 0,
        },
        ime_preedit: None,
        ..c
    }
}

/// The arrow-down key: navigate, then re-derive the filtered list from
/// the buffer content the navigation produced.
pub open spec fn key_arrow_down_v(c: CtrlView, candidates: Seq<Seq<char>>) -> CtrlView {
    let (sg, b) = nav_down_v(c.sugg, c.buf);
    CtrlView { buf: b, sugg: refresh_v(sg, candidates, b.content), ..c }
}

/// The arrow-up key: navigate, then re-derive the filtered list from
/// the buffer content the navigation produced.
pub open spec fn key_arrow_up_v(c: CtrlView, candidates: Seq<Seq<char>>) -> CtrlView {
    let (sg, b) = nav_up_v(c.sugg, c.buf);
    CtrlView { buf: b, sugg: refresh_v(sg, candidates, b.content), ..c }
}

/// Escape: the popup closes, the highlight is dropped and focus is
/// released.
pub open spec fn escape_v(c: CtrlView) -> CtrlView {
    CtrlView {
        sugg: SuggView { selected: -1, is_open: false, ..c.sugg },
        is_focused: false,
        ..c
    }
}

/// One key-down event: the next state, the text to submit (if any), and
/// whether the event's propagation to surrounding handlers must stop.
pub open spec fn key_down_v(c: CtrlView, candidates: Seq<Seq<char>>, key: Key) -> (
    CtrlView,
    Option<Seq<char>>,
    bool,
) {
    match key {
        Key::Enter => {
            if 0 <= c.sugg.selected < c.sugg.filtered.len() {
                let chosen = c.sugg.filtered[c.sugg.selected];
                (accept_v(c, candidates, chosen), Some(chosen), false)
            } else {
                (
                    CtrlView { sugg: SuggView { is_open: false, ..c.sugg }, ..c },
                    Some(c.buf.content),
                    false,
                )
            }
        },
        Key::ArrowDown => (key_arrow_down_v(c, candidates), None, true),
        Key::ArrowUp => (key_arrow_up_v(c, candidates), None, true),
        Key::Escape => (escape_v(c), None, false),
        Key::Meta => (c, None, false),
        Key::Edit(k) => (edit_v(c, candidates, k), None, true),
    }
}

/// Reconciliation against the externally owned text value: when it
/// differs from the buffer content, the buffer is replaced wholesale
/// (clearing selection, drag and history) and the filtered list follows
/// the new content. This one-way override takes priority over any
/// in-progress edit.
pub open spec fn sync_v(c: CtrlView, candidates: Seq<Seq<char>>, external: Seq<char>) -> CtrlView {
    CtrlView {
        buf: crate::text::set_all_v(c.buf, external),
        sugg: refresh_v(c.sugg, candidates, external),
        ..c
    }
}

/// A pointer press inside the text region at a character offset already
/// mapped from the pointer location: a drag starts, the widget takes
/// focus and the popup opens — provided there is text; with an empty
/// content the popup is forced closed. While the placeholder is
/// displayed the offset is meaningless and the buffer is left alone.
pub open spec fn pointer_down_v(c: CtrlView, offset: nat, display_placeholder: bool) -> CtrlView {
    CtrlView {
        buf: if display_placeholder {
            c.buf
        } else {
            begin_drag_v(c.buf, offset)
        },
        sugg: SuggView { is_open: c.buf.content.len() > 0, ..c.sugg },
        is_focused: true,
        is_dragging: true,
        ..c
    }
}

/// A global pointer move: while focused and dragging it extends the
/// text selection toward the offset; otherwise nothing happens.
pub open spec fn pointer_move_v(c: CtrlView, offset: nat) -> CtrlView {
    if c.is_focused && c.is_dragging {
        CtrlView { buf: drag_to_v(c.buf, offset), ..c }
    } else {
        c
    }
}

/// A global pointer release. Any selection-drag gesture in the buffer
/// ends when the pointer hovers the widget or when the widget is
/// focused. A focused widget then either finishes its drag, or — when
/// no drag was in progress, i.e. the press landed elsewhere — loses
/// focus, closes the popup and cancels any in-progress suggestion
/// browsing by dropping the highlight.
pub open spec fn pointer_up_v(c: CtrlView) -> CtrlView {
    let releases = (c.status == AutoCompleteInputStatus::Idle && c.is_focused) || c.status
        == AutoCompleteInputStatus::Hovering;
    let b = if releases {
        release_drag_v(c.buf)
    } else {
        c.buf
    };
    if c.is_focused {
        if c.is_dragging {
            CtrlView { buf: b, is_dragging: false, ..c }
        } else {
            CtrlView {
                buf: b,
                sugg: SuggView { is_open: false, selected: -1, ..c.sugg },
                is_focused: false,
                ..c
            }
        }
    } else {
        CtrlView { buf: b, ..c }
    }
}

/// Law: accepting with a highlighted suggestion round-trips. With a
/// valid highlight, the enter key puts that suggestion into the buffer
/// with the cursor at its end, reports exactly that text for the submit
/// callback, closes the popup and drops the highlight.
pub proof fn lemma_accept_with_selection(c: CtrlView, candidates: Seq<Seq<char>>)
    requires
        0 <= c.sugg.selected < c.sugg.filtered.len(),
    ensures
        ({
            let (c2, submitted, stop) = key_down_v(c, candidates, Key::Enter);
            &&& c2.buf.content == c.sugg.filtered[c.sugg.selected]
            &&& c2.buf.cursor == c2.buf.content.len()
            &&& submitted == Some(c.sugg.filtered[c.sugg.selected])
            &&& !c2.sugg.is_open
            &&& c2.sugg.selected == -1
        }),
{
}

/// Law: a pointer drag ends the popup lifecycle correctly. A press
/// inside the widget opens the popup, takes focus and starts the drag;
/// the matching release only ends the drag, keeping focus and popup; a
/// further release with no drag in progress — a click that landed
/// elsewhere — releases focus and closes the popup.
pub proof fn lemma_drag_ends_popup(c: CtrlView, offset: nat, display_placeholder: bool)
    ensures
        pointer_down_v(c, offset, display_placeholder).sugg.is_open == (c.buf.content.len() > 0),
        pointer_down_v(c, offset, display_placeholder).is_focused,
        pointer_down_v(c, offset, display_placeholder).is_dragging,
        ({
            let up1 = pointer_up_v(pointer_down_v(c, offset, display_placeholder));
            &&& up1.is_focused
            &&& !up1.is_dragging
            &&& up1.sugg.is_open == (c.buf.content.len() > 0)
            &&& !pointer_up_v(up1).is_focused
            &&& !pointer_up_v(up1).sugg.is_open
        }),
{
}

/// The central state machine of the widget.
pub struct InputInteractionController {
    buffer: TextBuffer,
    suggest: SuggestionController,
    is_focused: bool,
    is_dragging: bool,
    ime_preedit: Option<Vec<char>>,
    status: AutoCompleteInputStatus,
}

impl View for InputInteractionController {
    type V = CtrlView;

    closed spec fn view(&self) -> CtrlView {
        CtrlView {
            buf: self.buffer@,
            sugg: self.suggest@,
            is_focused: self.is_focused,
            is_dragging: self.is_dragging,
            ime_preedit: match self.ime_preedit {
                Some(ref t) => Some(t@),
                None => None,
            },
            status: self.status,
        }
    }
}

impl InputInteractionController {
    /// The controller invariant, stated over the view.
    pub open spec fn wf(&self) -> bool {
        self@.inv()
    }

    /// A fresh controller over an initial text.
    pub fn new(text: Vec<char>) -> (r: InputInteractionController)
        ensures
            r.wf(),
            r@ == fresh_ctrl(text@),
    {
        let r = InputInteractionController {
            buffer: TextBuffer::from_text(text),
            suggest: SuggestionController::new(),
            is_focused: false,
            is_dragging: false,
            ime_preedit: None,
            status: AutoCompleteInputStatus::Idle,
        };
        proof {
            assert(r@ =~~= fresh_ctrl(r.buffer@.content));
        }
        r
    }

    /// The text buffer.
    pub fn buffer(&self) -> (r: &TextBuffer)
        ensures
            r@ == self@.buf,
    {
        &self.buffer
    }

    /// The suggestion state.
    pub fn suggest(&self) -> (r: &SuggestionController)
        ensures
            r@ == self@.sugg,
    {
        &self.suggest
    }

    /// Whether the widget holds keyboard focus.
    pub fn is_focused(&self) -> (r: bool)
        ensures
            r == self@.is_focused,
    {
        self.is_focused
    }

    /// Whether a pointer drag is in progress.
    pub fn is_dragging(&self) -> (r: bool)
        ensures
            r == self@.is_dragging,
    {
        self.is_dragging
    }

    /// The transient IME composition text.
    pub fn ime_preedit(&self) -> (r: &Option<Vec<char>>)
        ensures
            match self@.ime_preedit {
                Some(t) => *r is Some && (*r)->0@ == t,
                None => *r is None,
            },
    {
        &self.ime_preedit
    }

    /// Pointer-hover state of the text region.
    pub fn status(&self) -> (r: AutoCompleteInputStatus)
        ensures
            r == self@.status,
    {
        self.status
    }

    /// Routes one key-down event, exactly as [`key_down_v`] states it.
    /// Returns the action to perform and whether the event's propagation
    /// to surrounding handlers must stop.
    pub fn handle_key_down(&mut self, key: Key, candidates: &Vec<Vec<char>>) -> (r: (Action, bool))
        requires
            old(self).wf(),
            string_views(candidates@).len() <= i32::MAX,
            old(self)@.buf.content.len() < usize::MAX,
        ensures
            final(self)@ == key_down_v(old(self)@, string_views(candidates@), key).0,
            match key_down_v(old(self)@, string_views(candidates@), key).1 {
                Some(t) => r.0 matches Action::Submit(s) && s@ == t,
                None => r.0 is Nothing,
            },
            r.1 == key_down_v(old(self)@, string_views(candidates@), key).2,
            final(self).wf(),
    {
        match key {
            Key::Enter => {
                let sel = self.suggest.selected_index();
                if sel >= 0 && (sel as usize) < self.suggest.filtered().len() {
                    let chosen = clone_chars(&self.suggest.filtered()[sel as usize]);
                    self.buffer.set_all(&chosen);
                    let end = chosen.len();
                    self.buffer.move_cursor_to(end);
                    self.suggest.on_accept(candidates, &chosen);
                    proof {
                        assert(self@ =~~= key_down_v(
                            old(self)@,
                            string_views(candidates@),
                            key,
                        ).0);
                    }
                    (Action::Submit(chosen), false)
                } else {
                    let text = clone_chars(self.buffer.content());
                    self.suggest.close();
                    proof {
                        assert(self@ =~~= key_down_v(
                            old(self)@,
                            string_views(candidates@),
                            key,
                        ).0);
                    }
                    (Action::Submit(text), false)
                }
            },
            Key::ArrowDown => {
                self.suggest.navigate_down(&mut self.buffer);
                let content = clone_chars(self.buffer.content());
                self.suggest.on_content_change(candidates, &content);
                proof {
                    assert(self@ =~~= key_down_v(old(self)@, string_views(candidates@), key).0);
                }
                (Action::Nothing, true)
            },
            Key::ArrowUp => {
                self.suggest.navigate_up(&mut self.buffer);
                let content = clone_chars(self.buffer.content());
                self.suggest.on_content_change(candidates, &content);
                proof {
                    assert(self@ =~~= key_down_v(old(self)@, string_views(candidates@), key).0);
                }
                (Action::Nothing, true)
            },
            Key::Escape => {
                self.suggest.close();
                self.suggest.clear_selection();
                self.is_focused = false;
                proof {
                    assert(self@ =~~= key_down_v(old(self)@, string_views(candidates@), key).0);
                }
                (Action::Nothing, false)
            },
            Key::Meta => {
                proof {
                    assert(self@ =~~= key_down_v(old(self)@, string_views(candidates@), key).0);
                }
                (Action::Nothing, false)
            },
            Key::Edit(k) => {
                self.buffer.process_key(k);
                let content = clone_chars(self.buffer.content());
                self.suggest.set_user_text(&content);
                self.suggest.clear_selection();
                self.suggest.on_content_change(candidates, &content);
                self.ime_preedit = None;
                proof {
                    assert(self@ =~~= key_down_v(old(self)@, string_views(candidates@), key).0);
                }
                (Action::Nothing, true)
            },
        }
    }

    /// Re-derives the filtered list from the current buffer content,
    /// applying the open/close rule for it.
    pub fn refresh(&mut self, candidates: &Vec<Vec<char>>)
        requires
            old(self).wf(),
            string_views(candidates@).len() <= i32::MAX,
        ensures
            final(self)@ == (CtrlView {
                sugg: refresh_v(
                    old(self)@.sugg,
                    string_views(candidates@),
                    old(self)@.buf.content,
                ),
                ..old(self)@
            }),
            final(self).wf(),
    {
        let content = clone_chars(self.buffer.content());
        self.suggest.on_content_change(candidates, &content);
        proof {
            assert(self@ =~~= (CtrlView {
                sugg: refresh_v(
                    old(self)@.sugg,
                    string_views(candidates@),
                    old(self)@.buf.content,
                ),
                ..old(self)@
            }));
        }
    }

    /// Reconciles the widget against the externally owned text value,
    /// exactly as [`sync_v`] states it: an unchanged value changes
    /// nothing, a changed one overrides the buffer and clears any
    /// in-progress edit state.
    pub fn sync_external(&mut self, external: &Vec<char>, candidates: &Vec<Vec<char>>)
        requires
            old(self).wf(),
            string_views(candidates@).len() <= i32::MAX,
        ensures
            final(self)@ == if external@ == old(self)@.buf.content {
                old(self)@
            } else {
                sync_v(old(self)@, string_views(candidates@), external@)
            },
            final(self).wf(),
    {
        let same = crate::fuzzy::seq_eq(external, self.buffer.content());
        if !same {
            self.buffer.set_all(external);
            self.suggest.on_content_change(candidates, external);
            proof {
                assert(self@ =~~= sync_v(old(self)@, string_views(candidates@), external@));
            }
        }
    }

    /// A pointer press inside the text region, exactly as
    /// [`pointer_down_v`] states it.
    pub fn handle_pointer_down(&mut self, offset: usize, display_placeholder: bool)
        requires
            old(self).wf(),
        ensures
            final(self)@ == pointer_down_v(old(self)@, offset as nat, display_placeholder),
            final(self).wf(),
    {
        self.is_dragging = true;
        let has_text = self.buffer.content().len() > 0;
        if !display_placeholder {
            self.buffer.begin_drag(offset);
        }
        self.is_focused = true;
        if has_text {
            self.suggest.open();
        } else {
            self.suggest.close();
        }
        proof {
            assert(self@ =~~= pointer_down_v(old(self)@, offset as nat, display_placeholder));
        }
    }

    /// A global pointer move, exactly as [`pointer_move_v`] states it.
    pub fn handle_pointer_move(&mut self, offset: usize)
        requires
            old(self).wf(),
        ensures
            final(self)@ == pointer_move_v(old(self)@, offset as nat),
            final(self).wf(),
    {
        if self.is_focused && self.is_dragging {
            self.buffer.drag_to(offset);
        }
        proof {
            assert(self@ =~~= pointer_move_v(old(self)@, offset as nat));
        }
    }

    /// A global pointer release, exactly as [`pointer_up_v`] states it.
    pub fn handle_pointer_up(&mut self)
        requires
            old(self).wf(),
        ensures
            final(self)@ == pointer_up_v(old(self)@),
            final(self).wf(),
    {
        let releases = (matches!(self.status, AutoCompleteInputStatus::Idle) && self.is_focused)
            || matches!(self.status, AutoCompleteInputStatus::Hovering);
        if releases {
            self.buffer.release_drag();
        }
        if self.is_focused {
            if self.is_dragging {
                self.is_dragging = false;
            } else {
                self.suggest.close();
                self.suggest.clear_selection();
                self.is_focused = false;
            }
        }
        proof {
            assert(self@ =~~= pointer_up_v(old(self)@));
        }
    }

    /// The pointer entered the text region.
    pub fn handle_pointer_enter(&mut self)
        ensures
            final(self)@ == (CtrlView { status: AutoCompleteInputStatus::Hovering, ..old(self)@ }),
            old(self).wf() ==> final(self).wf(),
    {
        self.status = AutoCompleteInputStatus::Hovering;
        proof {
            assert(self@ =~~= (CtrlView {
                status: AutoCompleteInputStatus::Hovering,
                ..old(self)@
            }));
        }
    }

    /// The pointer left the text region.
    pub fn handle_pointer_leave(&mut self)
        ensures
            final(self)@ == (CtrlView { status: AutoCompleteInputStatus::Idle, ..old(self)@ }),
            old(self).wf() ==> final(self).wf(),
    {
        self.status = AutoCompleteInputStatus::Idle;
        proof {
            assert(self@ =~~= (CtrlView { status: AutoCompleteInputStatus::Idle, ..old(self)@ }));
        }
    }

    /// An IME composition update: the pre-edit text is stored, shown as
    /// an inline span but never committed to the buffer.
    pub fn handle_ime_preedit(&mut self, text: Vec<char>)
        ensures
            final(self)@ == (CtrlView { ime_preedit: Some(text@), ..old(self)@ }),
            old(self).wf() ==> final(self).wf(),
    {
        let ghost t = text@;
        self.ime_preedit = Some(text);
        proof {
            assert(self@ =~~= (CtrlView { ime_preedit: Some(t), ..old(self)@ }));
        }
    }

    /// The pointer entered a suggestion row: hover preview, no text
    /// mutation. An out-of-range row is ignored.
    pub fn hover_suggestion(&mut self, index: usize)
        requires
            old(self).wf(),
        ensures
            final(self)@ == (CtrlView {
                sugg: if 0 <= index < old(self)@.sugg.filtered.len() {
                    SuggView { selected: index as int, ..old(self)@.sugg }
                } else {
                    old(self)@.sugg
                },
                ..old(self)@
            }),
            final(self).wf(),
    {
        self.suggest.hover(index);
        proof {
            assert(self@ =~~= (CtrlView {
                sugg: if 0 <= index < old(self)@.sugg.filtered.len() {
                    SuggView { selected: index as int, ..old(self)@.sugg }
                } else {
                    old(self)@.sugg
                },
                ..old(self)@
            }));
        }
    }

    /// A pointer release over a listed suggestion row: identical in
    /// effect to accepting that suggestion with the enter key, including
    /// the submit report. An out-of-range row is ignored.
    pub fn click_suggestion(&mut self, index: usize, candidates: &Vec<Vec<char>>) -> (r: Action)
        requires
            old(self).wf(),
            string_views(candidates@).len() <= i32::MAX,
        ensures
            0 <= index < old(self)@.sugg.filtered.len() ==> {
                &&& final(self)@ == accept_v(
                    old(self)@,
                    string_views(candidates@),
                    old(self)@.sugg.filtered[index as int],
                )
                &&& r matches Action::Submit(s) && s@ == old(self)@.sugg.filtered[index as int]
            },
            !(0 <= index < old(self)@.sugg.filtered.len()) ==> {
                &&& final(self)@ == old(self)@
                &&& r is Nothing
            },
            final(self).wf(),
    {
        if index >= self.suggest.filtered().len() {
            return Action::Nothing;
        }
        let chosen = clone_chars(&self.suggest.filtered()[index]);
        self.buffer.set_all(&chosen);
        let end = chosen.len();
        self.buffer.move_cursor_to(end);
        self.suggest.on_accept(candidates, &chosen);
        proof {
            assert(self@ =~~= accept_v(
                old(self)@,
                string_views(candidates@),
                old(self)@.sugg.filtered[index as int],
            ));
        }
        Action::Submit(chosen)
    }
}

} // verus!
