//! What the animator asks of the window system.
use crate::animation::types::{AnimationError, Rect, WindowRef};
use vstd::prelude::*;

pub mod mock;
pub mod win32;

verus! {

/// A call that was made to the window system.
pub enum BackendCall {
    /// A window was asked about. The answer is its rectangle, or none where there was an error.
    Asked { window: WindowRef, answer: Option<Rect> },
    /// Windows were to be moved, with or without an error.
    Moved { updates: Seq<(WindowRef, Rect)>, ok: bool },
    /// The compositor was waited for.
    Paced,
}

/// The rectangle in an answer, or none where it is an error.
pub open spec fn answer_rect(answer: Result<Rect, AnimationError>) -> Option<Rect> {
    match answer {
        Ok(rect) => Some(rect),
        Err(_) => None,
    }
}

/// The window system as the animator sees it.
///
/// Every backend keeps a history of the calls that were made to it, and has an idea of what it
/// can answer, which no call changes. A backend for windows that move by themselves can answer
/// anything.
pub trait WindowBackend {
    /// Every call so far, in order.
    spec fn history(&self) -> Seq<BackendCall>;

    /// Whether this can be the answer to a question about a window.
    spec fn may_answer(&self, window: WindowRef, answer: Option<Rect>) -> bool;

    /// The current screen rectangle of a window.
    fn get_window_rect(&mut self, window: WindowRef) -> (res: Result<Rect, AnimationError>)
        ensures
            final(self).history() == old(self).history().push(
                BackendCall::Asked { window, answer: answer_rect(res) },
            ),
            old(self).may_answer(window, answer_rect(res)),
            forall|w: WindowRef, r: Option<Rect>| #[trigger]
                final(self).may_answer(w, r) == old(self).may_answer(w, r),
    ;

    /// Moves every window of `updates`, each on its own: one that cannot be moved does not
    /// keep the others from moving. The first error is returned.
    fn apply_batch(&mut self, updates: &[(WindowRef, Rect)]) -> (res: Result<(), AnimationError>)
        ensures
            final(self).history() == old(self).history().push(
                BackendCall::Moved { updates: updates@, ok: res is Ok },
            ),
            forall|w: WindowRef, r: Option<Rect>| #[trigger]
                final(self).may_answer(w, r) == old(self).may_answer(w, r),
    ;

    /// Waits until the compositor has finished its current cycle.
    fn dwm_flush(&mut self) -> (res: Result<(), AnimationError>)
        ensures
            final(self).history() == old(self).history().push(BackendCall::Paced),
            forall|w: WindowRef, r: Option<Rect>| #[trigger]
                final(self).may_answer(w, r) == old(self).may_answer(w, r),
    ;
}

/// Whether two states of a backend can answer the same.
pub open spec fn same_answers<B: WindowBackend>(a: B, b: B) -> bool {
    forall|w: WindowRef, r: Option<Rect>| #[trigger] a.may_answer(w, r) == b.may_answer(w, r)
}

} // verus!
