//! The edited text: content, cursor, selection, and a pointer-drag
//! selection gesture.
//!
//! The buffer owns the edited string as a vector of characters together
//! with a cursor offset, an optional selection range and the origin of an
//! in-progress selection drag. All offsets are clamped defensively: no
//! operation can fail or leave the buffer outside its invariant. A small
//! history of previous contents stands for the undo state; replacing the
//! content wholesale clears it.

use vstd::prelude::*;

use crate::fuzzy::string_views;

verus! {

/// The smaller of two naturals.
pub open spec fn min_nat(a: nat, b: nat) -> nat {
    if a <= b {
        a
    } else {
        b
    }
}

/// A fresh copy of a character vector.
pub fn clone_chars(v: &Vec<char>) -> (r: Vec<char>)
    ensures
        r@ == v@,
{
    let mut copy: Vec<char> = Vec::new();
    let mut i: usize = 0;
    while i < v.len()
        invariant
            i <= v@.len(),
            copy@ == v@.subrange(0, i as int),
        decreases v@.len() - i,
    {
        copy.push(v[i]);
        i = i + 1;
        proof {
            assert(copy@ =~= v@.subrange(0, i as int));
        }
    }
    proof {
        assert(copy@ =~= v@);
    }
    copy
}

/// A key that edits the text rather than steering the suggestion popup.
#[derive(Clone, Copy, Debug)]
pub enum EditKey {
    /// A printable character, inserted at the cursor.
    Char(char),
    /// Remove the selection, or the character before the cursor.
    Backspace,
    /// Remove the selection, or the character after the cursor.
    Delete,
    /// Move the cursor one character left, dropping the selection.
    Left,
    /// Move the cursor one character right, dropping the selection.
    Right,
}

/// The mathematical state of a [`TextBuffer`].
#[verifier::ext_equal]
pub ghost struct BufView {
    /// The edited string.
    pub content: Seq<char>,
    /// Cursor offset, always within `0..=content.len()`.
    pub cursor: nat,
    /// Selection range `(start, end)` with `start <= end <= len`.
    pub selection: Option<(nat, nat)>,
    /// Anchor of an in-progress selection drag.
    pub drag_origin: Option<nat>,
    /// Previous contents, most recent last; the undo state.
    pub history: Seq<Seq<char>>,
}

impl BufView {
    /// The buffer invariant: every stored offset lies inside the content.
    pub open spec fn inv(self) -> bool {
        &&& self.cursor <= self.content.len()
        &&& match self.selection {
            Some((s, e)) => s <= e && e <= self.content.len(),
            None => true,
        }
        &&& match self.drag_origin {
            Some(o) => o <= self.content.len(),
            None => true,
        }
    }
}

/// A buffer freshly created from `text`: cursor at the start, nothing
/// selected, no drag, no history.
pub open spec fn fresh_buf(text: Seq<char>) -> BufView {
    BufView { content: text, cursor: 0, selection: None, drag_origin: None, history: Seq::empty() }
}

/// Wholesale replacement of the content. The cursor is clamped into the
/// new content, selection and drag are dropped, and the history is
/// cleared.
pub open spec fn set_all_v(v: BufView, text: Seq<char>) -> BufView {
    BufView {
        content: text,
        cursor: min_nat(v.cursor, text.len()),
        selection: None,
        drag_origin: None,
        history: Seq::empty(),
    }
}

/// Cursor motion to a clamped offset; everything else is kept.
pub open spec fn move_cursor_v(v: BufView, offset: nat) -> BufView {
    BufView { cursor: min_nat(offset, v.content.len()), ..v }
}

/// Insertion of one character at a clamped offset. The previous content
/// is pushed onto the history, the cursor lands after the new character
/// and the selection is dropped.
pub open spec fn insert_at_v(v: BufView, offset: nat, c: char) -> BufView {
    let o = min_nat(offset, v.content.len());
    BufView {
        content: v.content.subrange(0, o as int) + seq![c] + v.content.subrange(
            o as int,
            v.content.len() as int,
        ),
        cursor: o + 1,
        selection: None,
        drag_origin: v.drag_origin,
        history: v.history.push(v.content),
    }
}

/// Removal of a clamped range. The previous content is pushed onto the
/// history, the cursor is pulled back with the removed text and the
/// selection is dropped.
pub open spec fn delete_range_v(v: BufView, start: nat, end: nat) -> BufView {
    let e = min_nat(end, v.content.len());
    let s = min_nat(start, e);
    let shorter = v.content.subrange(0, s as int) + v.content.subrange(
        e as int,
        v.content.len() as int,
    );
    BufView {
        content: shorter,
        cursor: if v.cursor >= e {
            (v.cursor - (e - s)) as nat
        } else if v.cursor > s {
            s
        } else {
            v.cursor
        },
        selection: None,
        drag_origin: match v.drag_origin {
            Some(o) => Some(min_nat(o, shorter.len())),
            None => None,
        },
        history: v.history.push(v.content),
    }
}

/// Effect of one edit key on the buffer, as the widget processes it:
/// a character replaces the selection or lands at the cursor; backspace
/// and delete remove the selection or one neighbouring character; the
/// arrows move the cursor and drop the selection.
pub open spec fn process_key_v(v: BufView, k: EditKey) -> BufView {
    match k {
        EditKey::Char(c) => match v.selection {
            Some((s, e)) => {
                if s < e {
                    let after = delete_range_v(v, s, e);
                    insert_at_v(after, after.cursor, c)
                } else {
                    insert_at_v(v, v.cursor, c)
                }
            },
            None => insert_at_v(v, v.cursor, c),
        },
        EditKey::Backspace => match v.selection {
            Some((s, e)) => {
                if s < e {
                    delete_range_v(v, s, e)
                } else if v.cursor > 0 {
                    delete_range_v(v, (v.cursor - 1) as nat, v.cursor)
                } else {
                    BufView { selection: None, ..v }
                }
            },
            None => {
                if v.cursor > 0 {
                    delete_range_v(v, (v.cursor - 1) as nat, v.cursor)
                } else {
                    v
                }
            },
        },
        EditKey::Delete => match v.selection {
            Some((s, e)) => {
                if s < e {
                    delete_range_v(v, s, e)
                } else if v.cursor < v.content.len() {
                    delete_range_v(v, v.cursor, (v.cursor + 1) as nat)
                } else {
                    BufView { selection: None, ..v }
                }
            },
            None => {
                if v.cursor < v.content.len() {
                    delete_range_v(v, v.cursor, (v.cursor + 1) as nat)
                } else {
                    v
                }
            },
        },
        EditKey::Left => BufView {
            cursor: if v.cursor > 0 {
                (v.cursor - 1) as nat
            } else {
                0
            },
            selection: None,
            ..v
        },
        EditKey::Right => BufView {
            cursor: min_nat(v.cursor + 1, v.content.len()),
            selection: None,
            ..v
        },
    }
}

/// Start of a selection drag at a clamped offset: the cursor jumps
/// there, the selection is dropped and the anchor is remembered.
pub open spec fn begin_drag_v(v: BufView, offset: nat) -> BufView {
    let o = min_nat(offset, v.content.len());
    BufView { cursor: o, selection: None, drag_origin: Some(o), ..v }
}

/// Extension of a selection drag toward a clamped offset: the selection
/// spans from the anchor to the offset and the cursor follows the
/// pointer. Without an anchor nothing changes.
pub open spec fn drag_to_v(v: BufView, offset: nat) -> BufView {
    match v.drag_origin {
        Some(a) => {
            let o = min_nat(offset, v.content.len());
            BufView {
                cursor: o,
                selection: if a <= o {
                    Some((a, o))
                } else {
                    Some((o, a))
                },
                ..v
            }
        },
        None => v,
    }
}

/// End of a selection drag: the anchor is forgotten, the selection
/// stays.
pub open spec fn release_drag_v(v: BufView) -> BufView {
    BufView { drag_origin: None, ..v }
}

/// Law: replacing the content is idempotent. Applying the same
/// replacement twice gives exactly the state after applying it once.
pub proof fn lemma_set_all_idempotent(v: BufView, text: Seq<char>)
    ensures
        set_all_v(set_all_v(v, text), text) == set_all_v(v, text),
{
}

/// A single-line text buffer with cursor, selection and drag state.
pub struct TextBuffer {
    content: Vec<char>,
    cursor: usize,
    selection: Option<(usize, usize)>,
    drag_origin: Option<usize>,
    history: Vec<Vec<char>>,
}

impl View for TextBuffer {
    type V = BufView;

    closed spec fn view(&self) -> BufView {
        BufView {
            content: self.content@,
            cursor: self.cursor as nat,
            selection: match self.selection {
                Some((s, e)) => Some((s as nat, e as nat)),
                None => None,
            },
            drag_origin: match self.drag_origin {
                Some(o) => Some(o as nat),
                None => None,
            },
            history: string_views(self.history@),
        }
    }
}

impl TextBuffer {
    /// The buffer invariant, stated over the view.
    pub open spec fn wf(&self) -> bool {
        self@.inv()
    }

    /// An empty buffer.
    pub fn new() -> (r: TextBuffer)
        ensures
            r.wf(),
            r@ == fresh_buf(Seq::<char>::empty()),
    {
        let r = TextBuffer {
            content: Vec::new(),
            cursor: 0,
            selection: None,
            drag_origin: None,
            history: Vec::new(),
        };
        proof {
            assert(r@ =~= fresh_buf(Seq::<char>::empty()));
        }
        r
    }

    /// A buffer initialized with `text`.
    pub fn from_text(text: Vec<char>) -> (r: TextBuffer)
        ensures
            r.wf(),
            r@ == fresh_buf(text@),
    {
        let r = TextBuffer {
            content: text,
            cursor: 0,
            selection: None,
            drag_origin: None,
            history: Vec::new(),
        };
        proof {
            assert(r@ =~= fresh_buf(r.content@));
        }
        r
    }

    /// Read-only view of the content.
    pub fn content(&self) -> (r: &Vec<char>)
        ensures
            r@ == self@.content,
    {
        &self.content
    }

    /// The cursor offset.
    pub fn cursor(&self) -> (r: usize)
        ensures
            r as nat == self@.cursor,
    {
        self.cursor
    }

    /// How many edits the undo state currently remembers.
    pub fn history_len(&self) -> (r: usize)
        ensures
            r as nat == self@.history.len(),
    {
        self.history.len()
    }

    /// The selection as the renderer should show it: only a non-empty
    /// range counts as visible.
    pub fn current_selection_for_render(&self) -> (r: Option<(usize, usize)>)
        ensures
            match self@.selection {
                Some((s, e)) => if s < e {
                    r == Some((s as usize, e as usize))
                } else {
                    r is None
                },
                None => r is None,
            },
    {
        match self.selection {
            Some((s, e)) => {
                if s < e {
                    Some((s, e))
                } else {
                    None
                }
            },
            None => None,
        }
    }

    /// Replaces the whole content, clamping the cursor and clearing
    /// selection, drag and history.
    pub fn set_all(&mut self, text: &Vec<char>)
        ensures
            final(self)@ == set_all_v(old(self)@, text@),
            final(self).wf(),
    {
        self.content = clone_chars(text);
        if self.cursor > self.content.len() {
            self.cursor = self.content.len();
        }
        self.selection = None;
        self.drag_origin = None;
        self.history = Vec::new();
        proof {
            assert(string_views(self.history@) =~= Seq::<Seq<char>>::empty());
            assert(self@ =~= set_all_v(old(self)@, text@));
        }
    }

    /// Moves the cursor to a clamped offset.
    pub fn move_cursor_to(&mut self, offset: usize)
        ensures
            final(self)@ == move_cursor_v(old(self)@, offset as nat),
            old(self).wf() ==> final(self).wf(),
    {
        if offset > self.content.len() {
            self.cursor = self.content.len();
        } else {
            self.cursor = offset;
        }
        proof {
            assert(self@ =~= move_cursor_v(old(self)@, offset as nat));
        }
    }

    /// Inserts one character at a clamped offset.
    pub fn insert_at(&mut self, offset: usize, c: char)
        requires
            old(self)@.content.len() < usize::MAX,
        ensures
            final(self)@ == insert_at_v(old(self)@, offset as nat, c),
            old(self).wf() ==> final(self).wf(),
    {
        let o = if offset > self.content.len() {
            self.content.len()
        } else {
            offset
        };
        let ghost before = self.content@;
        let prev = self.clone_content();
        self.history.push(prev);
        self.content.insert(o, c);
        self.cursor = o + 1;
        self.selection = None;
        proof {
            assert(self.content@ =~= before.subrange(0, o as int) + seq![c] + before.subrange(
                o as int,
                before.len() as int,
            ));
            assert(string_views(self.history@) =~= string_views(old(self).history@).push(before));
            assert(self@ =~= insert_at_v(old(self)@, offset as nat, c));
        }
    }

    /// Removes a clamped character range.
    pub fn delete_range(&mut self, start: usize, end: usize)
        ensures
            final(self)@ == delete_range_v(old(self)@, start as nat, end as nat),
            old(self).wf() ==> final(self).wf(),
    {
        let e = if end > self.content.len() {
            self.content.len()
        } else {
            end
        };
        let s = if start > e {
            e
        } else {
            start
        };
        let ghost before = self.content@;
        let prev = self.clone_content();
        let mut newc: Vec<char> = Vec::new();
        proof {
            assert(newc@ =~= prev@.subrange(0, 0));
        }
        let mut i: usize = 0;
        while i < s
            invariant
                s <= e,
                e <= prev@.len(),
                i <= s,
                newc@ == prev@.subrange(0, i as int),
            decreases s - i,
        {
            newc.push(prev[i]);
            i = i + 1;
            proof {
                assert(newc@ =~= prev@.subrange(0, i as int));
            }
        }
        proof {
            assert(newc@ =~= prev@.subrange(0, s as int) + prev@.subrange(e as int, e as int));
        }
        let mut j: usize = e;
        while j < prev.len()
            invariant
                s <= e,
                e <= j <= prev@.len(),
                newc@ == prev@.subrange(0, s as int) + prev@.subrange(e as int, j as int),
            decreases prev@.len() - j,
        {
            newc.push(prev[j]);
            j = j + 1;
            proof {
                assert(newc@ =~= prev@.subrange(0, s as int) + prev@.subrange(e as int, j as int));
            }
        }
        self.history.push(prev);
        self.content = newc;
        if self.cursor >= e {
            self.cursor = self.cursor - (e - s);
        } else if self.cursor > s {
            self.cursor = s;
        }
        self.selection = None;
        let anchor = self.drag_origin;
        match anchor {
            Some(o) => {
                if o > self.content.len() {
                    self.drag_origin = Some(self.content.len());
                }
            },
            None => {},
        }
        proof {
            assert(self.content@ =~= before.subrange(0, s as int) + before.subrange(
                e as int,
                before.len() as int,
            ));
            assert(string_views(self.history@) =~= string_views(old(self).history@).push(before));
            assert(self@ =~= delete_range_v(old(self)@, start as nat, end as nat));
        }
    }

    /// Applies one edit key.
    pub fn process_key(&mut self, k: EditKey)
        requires
            old(self).wf(),
            old(self)@.content.len() < usize::MAX,
        ensures
            final(self)@ == process_key_v(old(self)@, k),
            final(self).wf(),
    {
        match k {
            EditKey::Char(c) => {
                let sel = self.selection;
                match sel {
                    Some((s, e)) => {
                        if s < e {
                            self.delete_range(s, e);
                            let at = self.cursor;
                            self.insert_at(at, c);
                        } else {
                            let at = self.cursor;
                            self.insert_at(at, c);
                        }
                    },
                    None => {
                        let at = self.cursor;
                        self.insert_at(at, c);
                    },
                }
            },
            EditKey::Backspace => {
                let sel = self.selection;
                match sel {
                    Some((s, e)) => {
                        if s < e {
                            self.delete_range(s, e);
                        } else if self.cursor > 0 {
                            let cur = self.cursor;
                            self.delete_range(cur - 1, cur);
                        } else {
                            self.selection = None;
                            proof {
                                assert(self@ =~= process_key_v(old(self)@, k));
                            }
                        }
                    },
                    None => {
                        if self.cursor > 0 {
                            let cur = self.cursor;
                            self.delete_range(cur - 1, cur);
                        }
                    },
                }
            },
            EditKey::Delete => {
                let sel = self.selection;
                match sel {
                    Some((s, e)) => {
                        if s < e {
                            self.delete_range(s, e);
                        } else if self.cursor < self.content.len() {
                            let cur = self.cursor;
                            self.delete_range(cur, cur + 1);
                        } else {
                            self.selection = None;
                            proof {
                                assert(self@ =~= process_key_v(old(self)@, k));
                            }
                        }
                    },
                    None => {
                        if self.cursor < self.content.len() {
                            let cur = self.cursor;
                            self.delete_range(cur, cur + 1);
                        }
                    },
                }
            },
            EditKey::Left => {
                if self.cursor > 0 {
                    self.cursor = self.cursor - 1;
                }
                self.selection = None;
                proof {
                    assert(self@ =~= process_key_v(old(self)@, k));
                }
            },
            EditKey::Right => {
                if self.cursor < self.content.len() {
                    self.cursor = self.cursor + 1;
                }
                self.selection = None;
                proof {
                    assert(self@ =~= process_key_v(old(self)@, k));
                }
            },
        }
    }

    /// Starts a selection drag at a clamped offset.
    pub fn begin_drag(&mut self, offset: usize)
        ensures
            final(self)@ == begin_drag_v(old(self)@, offset as nat),
            old(self).wf() ==> final(self).wf(),
    {
        let o = if offset > self.content.len() {
            self.content.len()
        } else {
            offset
        };
        self.cursor = o;
        self.selection = None;
        self.drag_origin = Some(o);
        proof {
            assert(self@ =~= begin_drag_v(old(self)@, offset as nat));
        }
    }

    /// Extends an in-progress selection drag toward a clamped offset.
    pub fn drag_to(&mut self, offset: usize)
        ensures
            final(self)@ == drag_to_v(old(self)@, offset as nat),
            old(self).wf() ==> final(self).wf(),
    {
        let anchor = self.drag_origin;
        match anchor {
            Some(a) => {
                let o = if offset > self.content.len() {
                    self.content.len()
                } else {
                    offset
                };
                self.cursor = o;
                if a <= o {
                    self.selection = Some((a, o));
                } else {
                    self.selection = Some((o, a));
                }
                proof {
                    assert(self@ =~= drag_to_v(old(self)@, offset as nat));
                }
            },
            None => {
                proof {
                    assert(self@ =~= drag_to_v(old(self)@, offset as nat));
                }
            },
        }
    }

    /// Ends a selection drag.
    pub fn release_drag(&mut self)
        ensures
            final(self)@ == release_drag_v(old(self)@),
            old(self).wf() ==> final(self).wf(),
    {
        self.drag_origin = None;
        proof {
            assert(self@ =~= release_drag_v(old(self)@));
        }
    }

    /// A fresh copy of the content.
    fn clone_content(&self) -> (r: Vec<char>)
        ensures
            r@ == self@.content,
    {
        clone_chars(&self.content)
    }
}

} // verus!
