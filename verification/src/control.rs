//! The commands a view answers to.

use vstd::prelude::*;

verus! {

/// A navigation command, already decoded from whatever the user typed.
#[derive(Clone, Copy, Debug, PartialEq, Eq)]
pub enum Control {
    ScrollUp,
    ScrollDown,
    ScrollPageUp,
    ScrollPageDown,
    ScrollTop,
    ScrollBottom,
    /// Go to the row with this number, counted from one.
    ScrollTo(usize),
    /// Any command that does not concern the view.
    Other,
}

/// What becomes of the row cursor once the window has moved.
#[derive(Clone, Copy, Debug, PartialEq, Eq)]
pub enum CursorMove {
    Stay,
    First,
    Last,
}

} // verus!
