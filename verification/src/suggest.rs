//! The suggestion list: filtering state, the highlighted index,
//! keyboard navigation and ghost-text derivation.
//!
//! The controller owns the filtered candidate list, the highlighted
//! index (`-1` meaning "no selection, the user-typed text is
//! authoritative"), the last genuinely typed text, and the popup open
//! flag. Navigation cycles forward through the filtered list and back to
//! the unselected state, restoring the typed text when the highlight
//! leaves the list.

use vstd::prelude::*;

use crate::fuzzy::{lower_char_exec, lower_seq, spec_filter_suggestions, string_views,
    filter_suggestions};
use crate::text::{clone_chars, move_cursor_v, set_all_v, BufView, TextBuffer};

verus! {

/// The mathematical state of a [`SuggestionController`].
#[verifier::ext_equal]
pub ghost struct SuggView {
    /// The filtered candidates, in candidate-list order.
    pub filtered: Seq<Seq<char>>,
    /// Highlighted index into `filtered`; `-1` means no selection.
    pub selected: int,
    /// The text last typed by the user, as opposed to text substituted
    /// while cycling through suggestions.
    pub user_text: Seq<char>,
    /// Whether the suggestion popup is open.
    pub is_open: bool,
}

impl SuggView {
    /// The controller invariant: the index stays in a machine range that
    /// keeps navigation arithmetic exact.
    pub open spec fn inv(self) -> bool {
        &&& -1 <= self.selected < i32::MAX
        &&& self.filtered.len() <= i32::MAX
    }
}

/// A freshly created controller: nothing filtered, nothing selected,
/// popup closed.
pub open spec fn fresh_sugg() -> SuggView {
    SuggView { filtered: Seq::empty(), selected: -1, user_text: Seq::empty(), is_open: false }
}

/// Reaction to a content change: an empty content forces the popup
/// closed (and the filter yields an empty list); a non-empty content
/// recomputes the filtered list and opens the popup. The highlighted
/// index and the user text are not touched.
pub open spec fn refresh_v(sg: SuggView, candidates: Seq<Seq<char>>, content: Seq<char>) -> SuggView {
    SuggView {
        filtered: spec_filter_suggestions(candidates, content),
        is_open: content.len() > 0,
        ..sg
    }
}

/// The buffer state after the typed text is put back: content replaced,
/// cursor at the end, selection, drag and history cleared.
pub open spec fn restore_v(b: BufView, text: Seq<char>) -> BufView {
    move_cursor_v(set_all_v(b, text), text.len())
}

/// Navigation one step down. With an empty filtered list nothing
/// happens. Otherwise the popup opens, and the highlight moves to the
/// next suggestion; moving past the last suggestion wraps to the
/// unselected state and puts the typed text back into the buffer.
pub open spec fn nav_down_v(sg: SuggView, b: BufView) -> (SuggView, BufView) {
    if sg.filtered.len() == 0 {
        (sg, b)
    } else if sg.selected + 1 >= sg.filtered.len() {
        (SuggView { selected: -1, is_open: true, ..sg }, restore_v(b, sg.user_text))
    } else {
        (SuggView { selected: sg.selected + 1, is_open: true, ..sg }, b)
    }
}

/// Navigation one step up. With an empty filtered list nothing happens.
/// Otherwise the popup opens; moving up from the unselected state wraps
/// to the last suggestion, and reaching the unselected state from the
/// first suggestion puts the typed text back into the buffer.
pub open spec fn nav_up_v(sg: SuggView, b: BufView) -> (SuggView, BufView) {
    if sg.filtered.len() == 0 {
        (sg, b)
    } else if sg.selected - 1 < -1 {
        (SuggView { selected: sg.filtered.len() - 1, is_open: true, ..sg }, b)
    } else if sg.selected - 1 == -1 {
        (SuggView { selected: -1, is_open: true, ..sg }, restore_v(b, sg.user_text))
    } else {
        (SuggView { selected: sg.selected - 1, is_open: true, ..sg }, b)
    }
}

/// Law: navigation wraps. From the last suggestion, one step down lands
/// on the unselected state and the buffer holds the typed text again;
/// from the unselected state, one step up lands on the last suggestion.
pub proof fn lemma_navigation_wraps(sg: SuggView, b: BufView)
    requires
        sg.filtered.len() > 0,
    ensures
        sg.selected == sg.filtered.len() - 1 ==> {
            &&& nav_down_v(sg, b).0.selected == -1
            &&& nav_down_v(sg, b).1.content == sg.user_text
        },
        sg.selected == -1 ==> nav_up_v(sg, b).0.selected == sg.filtered.len() - 1,
{
}

/// The inline completion shown behind the typed text. With a non-empty
/// content and a non-empty filtered list, the highlighted candidate (or
/// the first one, when nothing valid is highlighted) supplies its
/// remaining suffix — exactly when its prefix equals the content up to
/// letter case. Accents are not folded here: only case is ignored.
pub open spec fn spec_ghost_text(filtered: Seq<Seq<char>>, selected: int, content: Seq<char>) -> Option<
    Seq<char>,
> {
    if content.len() > 0 && filtered.len() > 0 {
        let best = if 0 <= selected < filtered.len() {
            filtered[selected]
        } else {
            filtered[0]
        };
        if content.len() <= best.len() && lower_seq(best.subrange(0, content.len() as int))
            == lower_seq(content) {
            Some(best.subrange(content.len() as int, best.len() as int))
        } else {
            None
        }
    } else {
        None
    }
}

/// Owns the filtered list, the highlighted index, the typed text and
/// the popup open flag.
pub struct SuggestionController {
    filtered: Vec<Vec<char>>,
    selected_index: i32,
    user_text: Vec<char>,
    is_open: bool,
}

impl View for SuggestionController {
    type V = SuggView;

    closed spec fn view(&self) -> SuggView {
        SuggView {
            filtered: string_views(self.filtered@),
            selected: self.selected_index as int,
            user_text: self.user_text@,
            is_open: self.is_open,
        }
    }
}

impl SuggestionController {
    /// The controller invariant, stated over the view.
    pub open spec fn wf(&self) -> bool {
        self@.inv()
    }

    /// A fresh controller.
    pub fn new() -> (r: SuggestionController)
        ensures
            r.wf(),
            r@ == fresh_sugg(),
    {
        let r = SuggestionController {
            filtered: Vec::new(),
            selected_index: -1,
            user_text: Vec::new(),
            is_open: false,
        };
        proof {
            assert(string_views(r.filtered@) =~= Seq::<Seq<char>>::empty());
            assert(r@ =~= fresh_sugg());
        }
        r
    }

    /// The filtered suggestions.
    pub fn filtered(&self) -> (r: &Vec<Vec<char>>)
        ensures
            string_views(r@) == self@.filtered,
    {
        &self.filtered
    }

    /// The highlighted index; `-1` means no selection.
    pub fn selected_index(&self) -> (r: i32)
        ensures
            r as int == self@.selected,
    {
        self.selected_index
    }

    /// The last genuinely typed text.
    pub fn user_text(&self) -> (r: &Vec<char>)
        ensures
            r@ == self@.user_text,
    {
        &self.user_text
    }

    /// Whether the popup is open.
    pub fn is_open(&self) -> (r: bool)
        ensures
            r == self@.is_open,
    {
        self.is_open
    }

    /// Recomputes the filtered list after the content changed and applies
    /// the open/close rule: empty content forces the popup closed,
    /// non-empty content opens it.
    pub fn on_content_change(&mut self, candidates: &Vec<Vec<char>>, content: &Vec<char>)
        requires
            old(self).wf(),
            string_views(candidates@).len() <= i32::MAX,
        ensures
            final(self)@ == refresh_v(old(self)@, string_views(candidates@), content@),
            final(self).wf(),
    {
        self.filtered = filter_suggestions(candidates, content);
        if content.len() == 0 {
            self.is_open = false;
        } else {
            self.is_open = true;
        }
        proof {
            assert(self@ =~= refresh_v(old(self)@, string_views(candidates@), content@));
        }
    }

    /// Settles the list after a suggestion was accepted: the filtered
    /// list is recomputed for the accepted text (whose exact match is
    /// suppressed by the filter), the highlight is dropped and the popup
    /// closes. The recorded user text is untouched.
    pub fn on_accept(&mut self, candidates: &Vec<Vec<char>>, content: &Vec<char>)
        requires
            old(self).wf(),
            string_views(candidates@).len() <= i32::MAX,
        ensures
            final(self)@ == (SuggView {
                filtered: spec_filter_suggestions(string_views(candidates@), content@),
                selected: -1,
                is_open: false,
                user_text: old(self)@.user_text,
            }),
            final(self).wf(),
    {
        self.filtered = filter_suggestions(candidates, content);
        self.selected_index = -1;
        self.is_open = false;
        proof {
            assert(self@ =~= (SuggView {
                filtered: spec_filter_suggestions(string_views(candidates@), content@),
                selected: -1,
                is_open: false,
                user_text: old(self)@.user_text,
            }));
        }
    }

    /// Records the text the user typed themselves.
    pub fn set_user_text(&mut self, text: &Vec<char>)
        ensures
            final(self)@ == (SuggView { user_text: text@, ..old(self)@ }),
            old(self).wf() ==> final(self).wf(),
    {
        self.user_text = clone_chars(text);
        proof {
            assert(self@ =~= (SuggView { user_text: text@, ..old(self)@ }));
        }
    }

    /// Drops the highlight back to the unselected state.
    pub fn clear_selection(&mut self)
        ensures
            final(self)@ == (SuggView { selected: -1, ..old(self)@ }),
            old(self).wf() ==> final(self).wf(),
    {
        self.selected_index = -1;
        proof {
            assert(self@ =~= (SuggView { selected: -1, ..old(self)@ }));
        }
    }

    /// Opens the popup.
    pub fn open(&mut self)
        ensures
            final(self)@ == (SuggView { is_open: true, ..old(self)@ }),
            old(self).wf() ==> final(self).wf(),
    {
        self.is_open = true;
        proof {
            assert(self@ =~= (SuggView { is_open: true, ..old(self)@ }));
        }
    }

    /// Closes the popup.
    pub fn close(&mut self)
        ensures
            final(self)@ == (SuggView { is_open: false, ..old(self)@ }),
            old(self).wf() ==> final(self).wf(),
    {
        self.is_open = false;
        proof {
            assert(self@ =~= (SuggView { is_open: false, ..old(self)@ }));
        }
    }

    /// Moves the highlight one suggestion down, wrapping past the end to
    /// the unselected state and restoring the typed text (the law
    /// [`lemma_navigation_wraps`] states the wrap exactly).
    pub fn navigate_down(&mut self, buffer: &mut TextBuffer)
        requires
            old(self).wf(),
        ensures
            (final(self)@, final(buffer)@) == nav_down_v(old(self)@, old(buffer)@),
            final(self).wf(),
            old(buffer).wf() ==> final(buffer).wf(),
    {
        if self.filtered.len() == 0 {
            proof {
                assert(self@ =~= nav_down_v(old(self)@, old(buffer)@).0);
            }
            return;
        }
        self.is_open = true;
        let new_index = self.selected_index + 1;
        if new_index >= self.filtered.len() as i32 || new_index < 0 {
            self.selected_index = -1;
            buffer.set_all(&self.user_text);
            let end = self.user_text.len();
            buffer.move_cursor_to(end);
            proof {
                assert(self@ =~= nav_down_v(old(self)@, old(buffer)@).0);
                assert(final(buffer)@ =~= nav_down_v(old(self)@, old(buffer)@).1);
            }
        } else {
            self.selected_index = new_index;
            proof {
                assert(self@ =~= nav_down_v(old(self)@, old(buffer)@).0);
            }
        }
    }

    /// Moves the highlight one suggestion up, wrapping below the
    /// unselected state to the last suggestion, and restoring the typed
    /// text when the unselected state is reached.
    pub fn navigate_up(&mut self, buffer: &mut TextBuffer)
        requires
            old(self).wf(),
        ensures
            (final(self)@, final(buffer)@) == nav_up_v(old(self)@, old(buffer)@),
            final(self).wf(),
            old(buffer).wf() ==> final(buffer).wf(),
    {
        if self.filtered.len() == 0 {
            proof {
                assert(self@ =~= nav_up_v(old(self)@, old(buffer)@).0);
            }
            return;
        }
        self.is_open = true;
        let new_index = self.selected_index - 1;
        if new_index < -1 {
            self.selected_index = (self.filtered.len() - 1) as i32;
            proof {
                assert(self@ =~= nav_up_v(old(self)@, old(buffer)@).0);
            }
        } else if new_index == -1 {
            self.selected_index = -1;
            buffer.set_all(&self.user_text);
            let end = self.user_text.len();
            buffer.move_cursor_to(end);
            proof {
                assert(self@ =~= nav_up_v(old(self)@, old(buffer)@).0);
                assert(final(buffer)@ =~= nav_up_v(old(self)@, old(buffer)@).1);
            }
        } else {
            self.selected_index = new_index;
            proof {
                assert(self@ =~= nav_up_v(old(self)@, old(buffer)@).0);
            }
        }
    }

    /// Highlights the suggestion under the pointer; an out-of-range row
    /// is ignored.
    pub fn hover(&mut self, index: usize)
        requires
            old(self).wf(),
        ensures
            final(self)@ == if 0 <= index < old(self)@.filtered.len() {
                SuggView { selected: index as int, ..old(self)@ }
            } else {
                old(self)@
            },
            final(self).wf(),
    {
        if index < self.filtered.len() {
            self.selected_index = index as i32;
            proof {
                assert(self@ =~= (SuggView { selected: index as int, ..old(self)@ }));
            }
        }
    }

    /// The ghost text for the current highlight and the given content,
    /// exactly as [`spec_ghost_text`] states it.
    #[verifier::loop_isolation(false)]
    pub fn ghost_text(&self, content: &Vec<char>) -> (r: Option<Vec<char>>)
        ensures
            match spec_ghost_text(self@.filtered, self@.selected, content@) {
                Some(g) => r is Some && r->0@ == g,
                None => r is None,
            },
    {
        if content.len() == 0 || self.filtered.len() == 0 {
            return None;
        }
        let best: &Vec<char> = if self.selected_index >= 0 && (self.selected_index as usize)
            < self.filtered.len() {
            &self.filtered[self.selected_index as usize]
        } else {
            &self.filtered[0]
        };
        proof {
            assert(best@ == if 0 <= self@.selected < self@.filtered.len() {
                self@.filtered[self@.selected]
            } else {
                self@.filtered[0]
            });
        }
        if content.len() > best.len() {
            return None;
        }
        let mut i: usize = 0;
        while i < content.len()
            invariant
                content@.len() <= best@.len(),
                i <= content@.len(),
                forall|k: int|
                    0 <= k < i ==> #[trigger] crate::fuzzy::lower_char(best@[k]) == crate::fuzzy::lower_char(
                        content@[k],
                    ),
            decreases content@.len() - i,
        {
            let a = lower_char_exec(best[i]);
            let b = lower_char_exec(content[i]);
            if a != b {
                proof {
                    let pref = best@.subrange(0, content@.len() as int);
                    assert(lower_seq(pref)[i as int] == crate::fuzzy::lower_char(best@[i as int]));
                    assert(lower_seq(content@)[i as int] == crate::fuzzy::lower_char(
                        content@[i as int],
                    ));
                }
                return None;
            }
            i = i + 1;
        }
        proof {
            let pref = best@.subrange(0, content@.len() as int);
            assert(lower_seq(pref) =~= lower_seq(content@));
        }
        let mut suffix: Vec<char> = Vec::new();
        let mut j: usize = content.len();
        while j < best.len()
            invariant
                content@.len() <= j <= best@.len(),
                suffix@ == best@.subrange(content@.len() as int, j as int),
            decreases best@.len() - j,
        {
            suffix.push(best[j]);
            j = j + 1;
            proof {
                assert(suffix@ =~= best@.subrange(content@.len() as int, j as int));
            }
        }
        proof {
            assert(suffix@ =~= best@.subrange(content@.len() as int, best@.len() as int));
        }
        Some(suffix)
    }
}

} // verus!
