//! State-machine core of an autocomplete combobox input widget.
//!
//! The widget is a single-line text editor augmented with live
//! fuzzy-filtered suggestions, keyboard-driven selection cycling, inline
//! "ghost text" completion, pointer-based text selection, IME composition
//! support, and an animated open/close lifecycle for the suggestion popup.
//!
//! Every stateful part is an explicit owned value and every transition is
//! a method from the current state and an input event to the next state,
//! so the whole interaction model can be driven and checked without a
//! rendering environment. Rendering, window events and focus plumbing
//! live outside this crate and talk to it through plain values.

use vstd::prelude::*;

pub mod animator;
pub mod fuzzy;
pub mod input;
pub mod suggest;
pub mod text;
pub mod widget;

verus! {

} // verus!
