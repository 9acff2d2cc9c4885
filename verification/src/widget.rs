//! The widget facade: configuration, the owned state machine and the
//! derived render state.
//!
//! Construction takes the current text value and an immutable candidate
//! list; builder methods configure placeholder, auto-focus, width,
//! enablement and text alignment. The facade keeps the popup animator in
//! step with the popup's open flag after every event, reconciles against
//! the externally owned text value, and derives everything the renderer
//! needs — shown text, placeholder display, cursor, selection, ghost
//! text, IME pre-edit and popup renderability — as plain values.

use vstd::prelude::*;

use crate::animator::{advance_v, fresh_anim, set_open_v, AnimView, PopupAnimator};
use crate::fuzzy::{spec_filter_suggestions, string_views};
use crate::input::{fresh_ctrl, key_down_v, pointer_down_v, pointer_move_v, pointer_up_v, sync_v,
    accept_v, Action, AutoCompleteInputStatus, CtrlView, InputInteractionController, Key};
use crate::suggest::{refresh_v, spec_ghost_text, SuggView};
use crate::text::clone_chars;

verus! {

/// Horizontal alignment of the shown text.
#[derive(Debug, Default, PartialEq, Eq, Structural, Clone, Copy)]
pub enum TextAlign {
    /// Aligned with the leading edge.
    #[default]
    Start,
    /// Centered.
    Center,
    /// Aligned with the trailing edge.
    End,
}

/// The mathematical state of an [`AutoCompleteInput`].
#[verifier::ext_equal]
pub ghost struct WidgetView {
    /// The immutable candidate list.
    pub candidates: Seq<Seq<char>>,
    /// Optional placeholder, shown while the value is empty.
    pub placeholder: Option<Seq<char>>,
    /// Whether the widget takes focus when mounted.
    pub auto_focus: bool,
    /// Whether the widget reacts to input.
    pub enabled: bool,
    /// Widget width in pixels.
    pub width: nat,
    /// Horizontal text alignment.
    pub text_align: TextAlign,
    /// The input state machine.
    pub ctrl: CtrlView,
    /// The popup animator.
    pub anim: AnimView,
}

impl WidgetView {
    /// The facade invariant: the owned components keep theirs, the
    /// candidate list stays in the index range navigation needs, and
    /// the filtered list is exactly the filter of the current content —
    /// it is re-derived whenever the content changes.
    pub open spec fn inv(self) -> bool {
        &&& self.ctrl.inv()
        &&& self.anim.inv()
        &&& self.candidates.len() <= i32::MAX
        &&& self.ctrl.sugg.filtered == spec_filter_suggestions(
            self.candidates,
            self.ctrl.buf.content,
        )
    }
}

/// Whether the placeholder is displayed instead of the value.
pub open spec fn display_placeholder_v(w: WidgetView) -> bool {
    w.ctrl.buf.content.len() == 0 && w.placeholder is Some
}

/// Whether the popup is mounted in the render tree: open, focused and
/// with suggestions to show — or still finishing its closing animation,
/// so it never disappears abruptly.
pub open spec fn popup_renderable_v(w: WidgetView) -> bool {
    (w.ctrl.sugg.is_open && w.ctrl.is_focused && w.ctrl.sugg.filtered.len() > 0)
        || w.anim.is_animating()
}

/// An autocomplete combobox input: a single-line editor with live
/// fuzzy-filtered suggestions, cycling selection, ghost text and an
/// animated suggestion popup.
pub struct AutoCompleteInput {
    candidates: Vec<Vec<char>>,
    placeholder: Option<Vec<char>>,
    auto_focus: bool,
    enabled: bool,
    width: u64,
    text_align: TextAlign,
    ctrl: InputInteractionController,
    animator: PopupAnimator,
}

impl View for AutoCompleteInput {
    type V = WidgetView;

    closed spec fn view(&self) -> WidgetView {
        WidgetView {
            candidates: string_views(self.candidates@),
            placeholder: match self.placeholder {
                Some(ref p) => Some(p@),
                None => None,
            },
            auto_focus: self.auto_focus,
            enabled: self.enabled,
            width: self.width as nat,
            text_align: self.text_align,
            ctrl: self.ctrl@,
            anim: self.animator@,
        }
    }
}

impl AutoCompleteInput {
    /// The facade invariant, stated over the view.
    pub open spec fn wf(&self) -> bool {
        self@.inv()
    }

    /// A new widget over the current text value and an immutable
    /// candidate list, with the default configuration: no placeholder,
    /// no auto-focus, 200 pixels wide, enabled, leading-edge alignment.
    /// The filtered list is derived immediately, so the popup flag
    /// already follows the initial value.
    pub fn new(value: Vec<char>, suggestions: Vec<Vec<char>>) -> (r: AutoCompleteInput)
        requires
            suggestions@.len() <= i32::MAX,
        ensures
            r.wf(),
            r@.candidates == string_views(suggestions@),
            r@.placeholder is None,
            !r@.auto_focus,
            r@.enabled,
            r@.width == 200,
            r@.text_align == TextAlign::Start,
            r@.ctrl == (CtrlView {
                sugg: refresh_v(fresh_ctrl(value@).sugg, string_views(suggestions@), value@),
                ..fresh_ctrl(value@)
            }),
            r@.anim == fresh_anim(),
    {
        let mut ctrl = InputInteractionController::new(value);
        ctrl.refresh(&suggestions);
        let r = AutoCompleteInput {
            candidates: suggestions,
            placeholder: None,
            auto_focus: false,
            enabled: true,
            width: 200,
            text_align: TextAlign::Start,
            ctrl,
            animator: PopupAnimator::new(),
        };
        r
    }

    /// Sets whether the widget reacts to input.
    pub fn enabled(self, enabled: bool) -> (r: AutoCompleteInput)
        ensures
            r@ == (WidgetView { enabled, ..self@ }),
            self.wf() ==> r.wf(),
    {
        let ghost old_view = self@;
        let r = AutoCompleteInput { enabled, ..self };
        proof {
            assert(r@ =~~= (WidgetView { enabled, ..old_view }));
        }
        r
    }

    /// Sets the placeholder shown while the value is empty.
    pub fn placeholder(self, placeholder: Vec<char>) -> (r: AutoCompleteInput)
        ensures
            r@ == (WidgetView { placeholder: Some(placeholder@), ..self@ }),
            self.wf() ==> r.wf(),
    {
        let ghost old_view = self@;
        let ghost p = placeholder@;
        let r = AutoCompleteInput { placeholder: Some(placeholder), ..self };
        proof {
            assert(r@ =~~= (WidgetView { placeholder: Some(p), ..old_view }));
        }
        r
    }

    /// Sets whether the widget takes focus when mounted.
    pub fn auto_focus(self, auto_focus: bool) -> (r: AutoCompleteInput)
        ensures
            r@ == (WidgetView { auto_focus, ..self@ }),
            self.wf() ==> r.wf(),
    {
        let ghost old_view = self@;
        let r = AutoCompleteInput { auto_focus, ..self };
        proof {
            assert(r@ =~~= (WidgetView { auto_focus, ..old_view }));
        }
        r
    }

    /// Sets the widget width in pixels.
    pub fn width(self, width: u64) -> (r: AutoCompleteInput)
        ensures
            r@ == (WidgetView { width: width as nat, ..self@ }),
            self.wf() ==> r.wf(),
    {
        let ghost old_view = self@;
        let r = AutoCompleteInput { width, ..self };
        proof {
            assert(r@ =~~= (WidgetView { width: width as nat, ..old_view }));
        }
        r
    }

    /// Sets the horizontal text alignment.
    pub fn text_align(self, text_align: TextAlign) -> (r: AutoCompleteInput)
        ensures
            r@ == (WidgetView { text_align, ..self@ }),
            self.wf() ==> r.wf(),
    {
        let ghost old_view = self@;
        let r = AutoCompleteInput { text_align, ..self };
        proof {
            assert(r@ =~~= (WidgetView { text_align, ..old_view }));
        }
        r
    }

    /// The input state machine, for reading derived state.
    pub fn controller(&self) -> (r: &InputInteractionController)
        ensures
            r@ == self@.ctrl,
    {
        &self.ctrl
    }

    /// The popup animator, for reading transition progress.
    pub fn animator(&self) -> (r: &PopupAnimator)
        ensures
            r@ == self@.anim,
    {
        &self.animator
    }

    /// The immutable candidate list.
    pub fn candidates(&self) -> (r: &Vec<Vec<char>>)
        ensures
            string_views(r@) == self@.candidates,
    {
        &self.candidates
    }

    /// Whether the widget reacts to input.
    pub fn is_enabled(&self) -> (r: bool)
        ensures
            r == self@.enabled,
    {
        self.enabled
    }

    /// The widget width in pixels.
    pub fn width_px(&self) -> (r: u64)
        ensures
            r as nat == self@.width,
    {
        self.width
    }

    /// The horizontal text alignment.
    pub fn alignment(&self) -> (r: TextAlign)
        ensures
            r == self@.text_align,
    {
        self.text_align
    }

    /// Whether the widget takes focus when mounted.
    pub fn wants_auto_focus(&self) -> (r: bool)
        ensures
            r == self@.auto_focus,
    {
        self.auto_focus
    }

    /// The configured placeholder text, if any.
    pub fn placeholder_text(&self) -> (r: &Option<Vec<char>>)
        ensures
            match self@.placeholder {
                Some(p) => *r is Some && (*r)->0@ == p,
                None => *r is None,
            },
    {
        &self.placeholder
    }

    /// Whether the placeholder is displayed instead of the value.
    pub fn display_placeholder(&self) -> (r: bool)
        ensures
            r == display_placeholder_v(self@),
    {
        self.ctrl.buffer().content().len() == 0 && self.placeholder.is_some()
    }

    /// Whether the popup is mounted in the render tree.
    pub fn popup_renderable(&self) -> (r: bool)
        ensures
            r == popup_renderable_v(self@),
    {
        (self.ctrl.suggest().is_open() && self.ctrl.is_focused() && self.ctrl.suggest().filtered().len()
            > 0) || self.animator.is_animating()
    }

    /// The ghost text completing the typed value to the highlighted (or
    /// first) filtered suggestion.
    pub fn ghost_text(&self) -> (r: Option<Vec<char>>)
        ensures
            match spec_ghost_text(
                self@.ctrl.sugg.filtered,
                self@.ctrl.sugg.selected,
                self@.ctrl.buf.content,
            ) {
                Some(g) => r is Some && r->0@ == g,
                None => r is None,
            },
    {
        self.ctrl.suggest().ghost_text(self.ctrl.buffer().content())
    }

    /// The cursor offset the renderer should show: present only while
    /// the widget is enabled and focused.
    pub fn cursor_for_render(&self) -> (r: Option<usize>)
        ensures
            if self@.enabled && self@.ctrl.is_focused {
                r is Some && r->0 as nat == self@.ctrl.buf.cursor
            } else {
                r is None
            },
    {
        if self.enabled && self.ctrl.is_focused() {
            Some(self.ctrl.buffer().cursor())
        } else {
            None
        }
    }

    /// The selection range the renderer should highlight: present only
    /// while the widget is enabled and focused, and only when non-empty.
    pub fn selection_for_render(&self) -> (r: Option<(usize, usize)>)
        ensures
            self@.enabled && self@.ctrl.is_focused ==> match self@.ctrl.buf.selection {
                Some((s, e)) => if s < e {
                    r == Some((s as usize, e as usize))
                } else {
                    r is None
                },
                None => r is None,
            },
            !(self@.enabled && self@.ctrl.is_focused) ==> r is None,
    {
        if self.enabled && self.ctrl.is_focused() {
            self.ctrl.buffer().current_selection_for_render()
        } else {
            None
        }
    }

    /// The IME pre-edit span the renderer should append: absent while
    /// the placeholder display mode is active.
    pub fn preedit_for_render(&self) -> (r: Option<Vec<char>>)
        ensures
            if display_placeholder_v(self@) {
                r is None
            } else {
                match self@.ctrl.ime_preedit {
                    Some(t) => r is Some && r->0@ == t,
                    None => r is None,
                }
            },
    {
        if self.display_placeholder() {
            return None;
        }
        match self.ctrl.ime_preedit() {
            Some(t) => Some(clone_chars(t)),
            None => None,
        }
    }

    /// Routes one key-down event and keeps the animator in step with
    /// the popup flag. Returns the action to perform and whether the
    /// event's propagation must stop.
    pub fn on_key_down(&mut self, key: Key) -> (r: (Action, bool))
        requires
            old(self).wf(),
            old(self)@.ctrl.buf.content.len() < usize::MAX,
        ensures
            ({
                let (c2, submitted, stop) = key_down_v(old(self)@.ctrl, old(self)@.candidates, key);
                &&& final(self)@ == (WidgetView {
                    ctrl: c2,
                    anim: set_open_v(old(self)@.anim, c2.sugg.is_open),
                    ..old(self)@
                })
                &&& match submitted {
                    Some(t) => r.0 matches Action::Submit(s) && s@ == t,
                    None => r.0 is Nothing,
                }
                &&& r.1 == stop
            }),
            final(self).wf(),
    {
        let r = self.ctrl.handle_key_down(key, &self.candidates);
        let open = self.ctrl.suggest().is_open();
        self.animator.set_open(open);
        proof {
            assert(self@ =~~= (WidgetView {
                ctrl: key_down_v(old(self)@.ctrl, old(self)@.candidates, key).0,
                anim: set_open_v(
                    old(self)@.anim,
                    key_down_v(old(self)@.ctrl, old(self)@.candidates, key).0.sugg.is_open,
                ),
                ..old(self)@
            }));
        }
        r
    }

    /// A pointer press inside the text region, at a character offset the
    /// renderer already mapped (and clamped) from the pointer location.
    pub fn on_pointer_down(&mut self, offset: usize)
        requires
            old(self).wf(),
        ensures
            ({
                let c2 = pointer_down_v(
                    old(self)@.ctrl,
                    offset as nat,
                    display_placeholder_v(old(self)@),
                );
                final(self)@ == (WidgetView {
                    ctrl: c2,
                    anim: set_open_v(old(self)@.anim, c2.sugg.is_open),
                    ..old(self)@
                })
            }),
            final(self).wf(),
    {
        let dp = self.display_placeholder();
        self.ctrl.handle_pointer_down(offset, dp);
        let open = self.ctrl.suggest().is_open();
        self.animator.set_open(open);
        proof {
            assert(self@ =~~= (WidgetView {
                ctrl: pointer_down_v(
                    old(self)@.ctrl,
                    offset as nat,
                    display_placeholder_v(old(self)@),
                ),
                anim: set_open_v(
                    old(self)@.anim,
                    pointer_down_v(
                        old(self)@.ctrl,
                        offset as nat,
                        display_placeholder_v(old(self)@),
                    ).sugg.is_open,
                ),
                ..old(self)@
            }));
        }
    }

    /// A global pointer move, at a mapped character offset.
    pub fn on_pointer_move(&mut self, offset: usize)
        requires
            old(self).wf(),
        ensures
            final(self)@ == (WidgetView {
                ctrl: pointer_move_v(old(self)@.ctrl, offset as nat),
                ..old(self)@
            }),
            final(self).wf(),
    {
        self.ctrl.handle_pointer_move(offset);
        proof {
            assert(self@ =~~= (WidgetView {
                ctrl: pointer_move_v(old(self)@.ctrl, offset as nat),
                ..old(self)@
            }));
        }
    }

    /// A global pointer release, with the animator following the popup
    /// flag.
    pub fn on_pointer_up(&mut self)
        requires
            old(self).wf(),
        ensures
            ({
                let c2 = pointer_up_v(old(self)@.ctrl);
                final(self)@ == (WidgetView {
                    ctrl: c2,
                    anim: set_open_v(old(self)@.anim, c2.sugg.is_open),
                    ..old(self)@
                })
            }),
            final(self).wf(),
    {
        self.ctrl.handle_pointer_up();
        let open = self.ctrl.suggest().is_open();
        self.animator.set_open(open);
        proof {
            assert(self@ =~~= (WidgetView {
                ctrl: pointer_up_v(old(self)@.ctrl),
                anim: set_open_v(old(self)@.anim, pointer_up_v(old(self)@.ctrl).sugg.is_open),
                ..old(self)@
            }));
        }
    }

    /// The pointer entered the text region.
    pub fn on_pointer_enter(&mut self)
        requires
            old(self).wf(),
        ensures
            final(self)@ == (WidgetView {
                ctrl: (CtrlView {
                    status: AutoCompleteInputStatus::Hovering,
                    ..old(self)@.ctrl
                }),
                ..old(self)@
            }),
            final(self).wf(),
    {
        self.ctrl.handle_pointer_enter();
        proof {
            assert(self@ =~~= (WidgetView {
                ctrl: (CtrlView {
                    status: AutoCompleteInputStatus::Hovering,
                    ..old(self)@.ctrl
                }),
                ..old(self)@
            }));
        }
    }

    /// The pointer left the text region.
    pub fn on_pointer_leave(&mut self)
        requires
            old(self).wf(),
        ensures
            final(self)@ == (WidgetView {
                ctrl: (CtrlView { status: AutoCompleteInputStatus::Idle, ..old(self)@.ctrl }),
                ..old(self)@
            }),
            final(self).wf(),
    {
        self.ctrl.handle_pointer_leave();
        proof {
            assert(self@ =~~= (WidgetView {
                ctrl: (CtrlView { status: AutoCompleteInputStatus::Idle, ..old(self)@.ctrl }),
                ..old(self)@
            }));
        }
    }

    /// An IME composition update.
    pub fn on_ime_preedit(&mut self, text: Vec<char>)
        requires
            old(self).wf(),
        ensures
            final(self)@ == (WidgetView {
                ctrl: (CtrlView { ime_preedit: Some(text@), ..old(self)@.ctrl }),
                ..old(self)@
            }),
            final(self).wf(),
    {
        let ghost t = text@;
        self.ctrl.handle_ime_preedit(text);
        proof {
            assert(self@ =~~= (WidgetView {
                ctrl: (CtrlView { ime_preedit: Some(t), ..old(self)@.ctrl }),
                ..old(self)@
            }));
        }
    }

    /// The pointer entered a suggestion row: hover preview only.
    pub fn on_hover_suggestion(&mut self, index: usize)
        requires
            old(self).wf(),
        ensures
            final(self)@ == (WidgetView {
                ctrl: (CtrlView {
                    sugg: if 0 <= index < old(self)@.ctrl.sugg.filtered.len() {
                        SuggView { selected: index as int, ..old(self)@.ctrl.sugg }
                    } else {
                        old(self)@.ctrl.sugg
                    },
                    ..old(self)@.ctrl
                }),
                ..old(self)@
            }),
            final(self).wf(),
    {
        self.ctrl.hover_suggestion(index);
        proof {
            assert(self@ =~~= (WidgetView {
                ctrl: (CtrlView {
                    sugg: if 0 <= index < old(self)@.ctrl.sugg.filtered.len() {
                        SuggView { selected: index as int, ..old(self)@.ctrl.sugg }
                    } else {
                        old(self)@.ctrl.sugg
                    },
                    ..old(self)@.ctrl
                }),
                ..old(self)@
            }));
        }
    }

    /// A pointer release over a suggestion row: identical in effect to
    /// accepting it with the enter key, reporting the text to submit.
    pub fn on_click_suggestion(&mut self, index: usize) -> (r: Action)
        requires
            old(self).wf(),
        ensures
            0 <= index < old(self)@.ctrl.sugg.filtered.len() ==> {
                let c2 = accept_v(
                    old(self)@.ctrl,
                    old(self)@.candidates,
                    old(self)@.ctrl.sugg.filtered[index as int],
                );
                &&& final(self)@ == (WidgetView {
                    ctrl: c2,
                    anim: set_open_v(old(self)@.anim, c2.sugg.is_open),
                    ..old(self)@
                })
                &&& r matches Action::Submit(s) && s@ == old(self)@.ctrl.sugg.filtered[
                    index as int]
            },
            !(0 <= index < old(self)@.ctrl.sugg.filtered.len()) ==> {
                &&& final(self)@ == (WidgetView {
                    anim: set_open_v(old(self)@.anim, old(self)@.ctrl.sugg.is_open),
                    ..old(self)@
                })
                &&& r is Nothing
            },
            final(self).wf(),
    {
        let r = self.ctrl.click_suggestion(index, &self.candidates);
        let open = self.ctrl.suggest().is_open();
        self.animator.set_open(open);
        proof {
            if 0 <= index < old(self)@.ctrl.sugg.filtered.len() {
                assert(self@ =~~= (WidgetView {
                    ctrl: accept_v(
                        old(self)@.ctrl,
                        old(self)@.candidates,
                        old(self)@.ctrl.sugg.filtered[index as int],
                    ),
                    anim: set_open_v(
                        old(self)@.anim,
                        accept_v(
                            old(self)@.ctrl,
                            old(self)@.candidates,
                            old(self)@.ctrl.sugg.filtered[index as int],
                        ).sugg.is_open,
                    ),
                    ..old(self)@
                }));
            } else {
                assert(self@ =~~= (WidgetView {
                    anim: set_open_v(old(self)@.anim, old(self)@.ctrl.sugg.is_open),
                    ..old(self)@
                }));
            }
        }
        r
    }

    /// Reconciles against the externally owned text value: a changed
    /// value overrides the buffer wholesale and clears selection, drag
    /// and history; an unchanged one changes nothing.
    pub fn sync_value(&mut self, external: &Vec<char>)
        requires
            old(self).wf(),
        ensures
            final(self)@ == if external@ == old(self)@.ctrl.buf.content {
                old(self)@
            } else {
                WidgetView {
                    ctrl: sync_v(old(self)@.ctrl, old(self)@.candidates, external@),
                    ..old(self)@
                }
            },
            final(self).wf(),
    {
        self.ctrl.sync_external(external, &self.candidates);
        proof {
            if external@ == old(self)@.ctrl.buf.content {
                assert(self@ =~~= old(self)@);
            } else {
                assert(self@ =~~= (WidgetView {
                    ctrl: sync_v(old(self)@.ctrl, old(self)@.candidates, external@),
                    ..old(self)@
                }));
            }
        }
    }

    /// Sets whether the widget reacts to input after construction.
    /// Losing enablement releases the hover visuals but never mutates
    /// the buffer.
    pub fn set_enabled(&mut self, enabled: bool)
        requires
            old(self).wf(),
        ensures
            final(self)@ == (WidgetView {
                enabled,
                ctrl: (CtrlView {
                    status: if enabled {
                        old(self)@.ctrl.status
                    } else {
                        AutoCompleteInputStatus::Idle
                    },
                    ..old(self)@.ctrl
                }),
                ..old(self)@
            }),
            final(self)@.ctrl.buf == old(self)@.ctrl.buf,
            final(self).wf(),
    {
        self.enabled = enabled;
        if !enabled {
            self.ctrl.handle_pointer_leave();
        }
        proof {
            assert(self@ =~~= (WidgetView {
                enabled,
                ctrl: (CtrlView {
                    status: if enabled {
                        old(self)@.ctrl.status
                    } else {
                        AutoCompleteInputStatus::Idle
                    },
                    ..old(self)@.ctrl
                }),
                ..old(self)@
            }));
        }
    }

    /// A frame tick: advances the popup transition to `elapsed_ms`
    /// milliseconds past the last direction change. Feeding the same
    /// elapsed time twice is idempotent.
    pub fn tick(&mut self, elapsed_ms: u64)
        requires
            old(self).wf(),
        ensures
            final(self)@ == (WidgetView {
                anim: advance_v(old(self)@.anim, elapsed_ms as nat),
                ..old(self)@
            }),
            final(self).wf(),
    {
        self.animator.advance(elapsed_ms);
        proof {
            assert(self@ =~~= (WidgetView {
                anim: advance_v(old(self)@.anim, elapsed_ms as nat),
                ..old(self)@
            }));
        }
    }
}

} // verus!
