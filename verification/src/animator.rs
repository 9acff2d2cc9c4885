//! Time-based open/close transition of the suggestion popup.
//!
//! The animator tracks one forward/reverse transition keyed off the
//! popup's open flag. Progress is measured in whole milliseconds toward
//! the fully open end of a fixed-length transition; the renderer maps
//! that progress to its eased scale and opacity. Advancing is driven by
//! an external frame loop handing in the time elapsed since the last
//! direction change, so feeding the same elapsed time twice is
//! idempotent (the law [`lemma_advance_idempotent`]).

use vstd::prelude::*;

use crate::text::min_nat;

verus! {

/// Length of the open/close transition, in milliseconds.
pub const POPUP_ANIM_MS: u64 = 150;

/// The mathematical state of a [`PopupAnimator`].
#[verifier::ext_equal]
pub ghost struct AnimView {
    /// Whether the transition runs toward open (true) or closed (false).
    pub opening: bool,
    /// Progress toward open at the last direction change, milliseconds.
    pub start_ms: nat,
    /// Current progress toward open, in `0..=POPUP_ANIM_MS` milliseconds.
    pub progress_ms: nat,
}

impl AnimView {
    /// The animator invariant: progress never leaves the transition.
    pub open spec fn inv(self) -> bool {
        &&& self.start_ms <= POPUP_ANIM_MS
        &&& self.progress_ms <= POPUP_ANIM_MS
    }

    /// Whether the transition is still in flight: opening short of fully
    /// open, or closing short of fully closed.
    pub open spec fn is_animating(self) -> bool {
        if self.opening {
            self.progress_ms < POPUP_ANIM_MS
        } else {
            self.progress_ms > 0
        }
    }
}

/// A freshly created animator: fully closed and at rest.
pub open spec fn fresh_anim() -> AnimView {
    AnimView { opening: false, start_ms: 0, progress_ms: 0 }
}

/// Reaction to the popup's open flag. A direction change re-anchors the
/// transition at the current progress; repeating the current direction
/// changes nothing.
pub open spec fn set_open_v(a: AnimView, open: bool) -> AnimView {
    if open == a.opening {
        a
    } else {
        AnimView { opening: open, start_ms: a.progress_ms, progress_ms: a.progress_ms }
    }
}

/// Progress after `elapsed_ms` milliseconds since the last direction
/// change: clamped addition toward open, clamped subtraction toward
/// closed.
pub open spec fn advance_v(a: AnimView, elapsed_ms: nat) -> AnimView {
    if a.opening {
        AnimView { progress_ms: min_nat(a.start_ms + elapsed_ms, POPUP_ANIM_MS as nat), ..a }
    } else {
        AnimView {
            progress_ms: if elapsed_ms <= a.start_ms {
                (a.start_ms - elapsed_ms) as nat
            } else {
                0
            },
            ..a
        }
    }
}

/// Law: a frame tick is idempotent. Advancing twice with the same
/// elapsed time gives exactly the state of advancing once.
pub proof fn lemma_advance_idempotent(a: AnimView, elapsed_ms: nat)
    ensures
        advance_v(advance_v(a, elapsed_ms), elapsed_ms) == advance_v(a, elapsed_ms),
{
    assert(advance_v(advance_v(a, elapsed_ms), elapsed_ms) =~= advance_v(a, elapsed_ms));
}

/// Drives the popup's scale/opacity transition from frame ticks.
pub struct PopupAnimator {
    opening: bool,
    start_ms: u64,
    progress_ms: u64,
}

impl View for PopupAnimator {
    type V = AnimView;

    closed spec fn view(&self) -> AnimView {
        AnimView {
            opening: self.opening,
            start_ms: self.start_ms as nat,
            progress_ms: self.progress_ms as nat,
        }
    }
}

impl PopupAnimator {
    /// The animator invariant, stated over the view.
    pub open spec fn wf(&self) -> bool {
        self@.inv()
    }

    /// A fresh animator, fully closed and at rest.
    pub fn new() -> (r: PopupAnimator)
        ensures
            r.wf(),
            r@ == fresh_anim(),
    {
        let r = PopupAnimator { opening: false, start_ms: 0, progress_ms: 0 };
        proof {
            assert(r@ =~= fresh_anim());
        }
        r
    }

    /// Whether the transition currently runs toward open.
    pub fn opening(&self) -> (r: bool)
        ensures
            r == self@.opening,
    {
        self.opening
    }

    /// Current progress toward open, in milliseconds.
    pub fn progress_ms(&self) -> (r: u64)
        ensures
            r as nat == self@.progress_ms,
    {
        self.progress_ms
    }

    /// Whether the transition is still in flight.
    pub fn is_animating(&self) -> (r: bool)
        ensures
            r == self@.is_animating(),
    {
        if self.opening {
            self.progress_ms < POPUP_ANIM_MS
        } else {
            self.progress_ms > 0
        }
    }

    /// Follows the popup's open flag, re-anchoring on a direction
    /// change.
    pub fn set_open(&mut self, open: bool)
        ensures
            final(self)@ == set_open_v(old(self)@, open),
            old(self).wf() ==> final(self).wf(),
    {
        if open != self.opening {
            self.opening = open;
            self.start_ms = self.progress_ms;
        }
        proof {
            assert(self@ =~= set_open_v(old(self)@, open));
        }
    }

    /// Advances the transition to `elapsed_ms` milliseconds past the
    /// last direction change.
    pub fn advance(&mut self, elapsed_ms: u64)
        requires
            old(self).wf(),
        ensures
            final(self)@ == advance_v(old(self)@, elapsed_ms as nat),
            final(self).wf(),
    {
        if self.opening {
            if elapsed_ms >= POPUP_ANIM_MS {
                self.progress_ms = POPUP_ANIM_MS;
            } else if self.start_ms + elapsed_ms >= POPUP_ANIM_MS {
                self.progress_ms = POPUP_ANIM_MS;
            } else {
                self.progress_ms = self.start_ms + elapsed_ms;
            }
        } else {
            if elapsed_ms <= self.start_ms {
                self.progress_ms = self.start_ms - elapsed_ms;
            } else {
                self.progress_ms = 0;
            }
        }
        proof {
            assert(self@ =~= advance_v(old(self)@, elapsed_ms as nat));
        }
    }

    /// Linear progress through the transition, in parts per thousand.
    pub fn progress_permille(&self) -> (r: u64)
        requires
            self.wf(),
        ensures
            r as nat == self@.progress_ms * 1000 / (POPUP_ANIM_MS as nat),
            r <= 1000,
    {
        proof {
            assert(self.progress_ms * 1000 <= 150000) by (nonlinear_arith)
                requires
                    self.progress_ms <= 150,
            ;
        }
        self.progress_ms * 1000 / POPUP_ANIM_MS
    }
}

} // verus!
