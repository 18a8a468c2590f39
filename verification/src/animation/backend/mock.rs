//! A window system in memory, which records what it is asked.
use crate::animation::backend::{BackendCall, WindowBackend};
use crate::animation::types::{AnimationError, Rect, WindowRef};
use std::collections::HashMap;
use vstd::prelude::*;
use vstd::string::*;

verus! {

/// One call that was made to a [`MockBackend`].
#[derive(Debug, Clone, PartialEq)]
pub enum MockCall {
    /// The rectangle of a window was asked for.
    GetWindowRect(WindowRef),
    /// Windows were moved.
    ApplyBatch(Vec<(WindowRef, Rect)>),
    /// The compositor was waited for.
    DwmFlush,
}

/// State of a [`MockBackend`].
#[derive(Debug)]
pub struct MockState {
    /// Every call so far, in order.
    pub calls: Vec<MockCall>,
    /// Rectangles of the windows that exist, by handle.
    pub rects: HashMap<isize, Rect>,
    /// The error that moving windows gives, if any.
    pub apply_batch_result: Option<AnimationError>,
    /// Milliseconds that a program which plays through this backend waits at each flush.
    pub dwm_flush_delay_ms: u64,
}

impl Default for MockState {
    /// No calls, no windows, no error, no delay.
    fn default() -> (res: Self)
        ensures
            res.calls@.len() == 0,
            res.rects@ == Map::<isize, Rect>::empty(),
            res.apply_batch_result is None,
            res.dwm_flush_delay_ms == 0,
    {
        MockState {
            calls: Vec::new(),
            rects: HashMap::new(),
            apply_batch_result: None,
            dwm_flush_delay_ms: 0,
        }
    }
}

/// A [`WindowBackend`] for tests.
#[derive(Debug)]
pub struct MockBackend {
    /// Windows, recorded calls and prepared results.
    pub state: MockState,
}

/// A copy of a list of moves.
fn copy_updates(updates: &[(WindowRef, Rect)]) -> (res: Vec<(WindowRef, Rect)>)
    ensures
        res@ == updates@,
{
    let mut copy: Vec<(WindowRef, Rect)> = Vec::new();
    let mut i: usize = 0;
    while i < updates.len()
        invariant
            i <= updates@.len(),
            copy@ == updates@.take(i as int),
        decreases updates@.len() - i,
    {
        copy.push(updates[i]);
        i = i + 1;
    }
    copy
}

impl MockState {
    /// Whether this is `before` with one more recorded call.
    pub open spec fn recorded(&self, before: MockState) -> bool {
        &&& self.calls@.len() == before.calls@.len() + 1
        &&& self.calls@.drop_last() == before.calls@
        &&& self.rects == before.rects
        &&& self.apply_batch_result == before.apply_batch_result
        &&& self.dwm_flush_delay_ms == before.dwm_flush_delay_ms
    }
}

impl MockBackend {
    /// A backend without windows.
    pub fn new() -> (res: Self)
        ensures
            res.state.calls@.len() == 0,
            res.state.rects@ == Map::<isize, Rect>::empty(),
            res.state.apply_batch_result is None,
            res.state.dwm_flush_delay_ms == 0,
    {
        MockBackend { state: MockState::default() }
    }

    /// A backend with a given state.
    pub fn with_state(state: MockState) -> (res: Self)
        ensures
            res.state == state,
    {
        MockBackend { state }
    }

    /// The state.
    pub fn state(&self) -> (res: &MockState)
        ensures
            *res == self.state,
    {
        &self.state
    }
}

impl Default for MockBackend {
    fn default() -> (res: Self)
        ensures
            res.state.calls@.len() == 0,
            res.state.rects@ == Map::<isize, Rect>::empty(),
            res.state.apply_batch_result is None,
            res.state.dwm_flush_delay_ms == 0,
    {
        MockBackend::new()
    }
}

/// The rectangle that a list of windows gives for a window.
pub open spec fn listed_rect(rects: Map<isize, Rect>, window: WindowRef) -> Option<Rect> {
    if rects.contains_key(window.0) {
        Some(rects[window.0])
    } else {
        None
    }
}

/// Recorded calls as a history, with the answers that the listed windows give and the prepared
/// outcome of moving them.
pub open spec fn history_of(
    calls: Seq<MockCall>,
    rects: Map<isize, Rect>,
    ok: bool,
) -> Seq<BackendCall>
    decreases calls.len(),
{
    if calls.len() == 0 {
        Seq::empty()
    } else {
        history_of(calls.drop_last(), rects, ok).push(
            match calls.last() {
                MockCall::GetWindowRect(window) => BackendCall::Asked {
                    window,
                    answer: listed_rect(rects, window),
                },
                MockCall::ApplyBatch(updates) => BackendCall::Moved { updates: updates@, ok },
                MockCall::DwmFlush => BackendCall::Paced,
            },
        )
    }
}

impl WindowBackend for MockBackend {
    /// The recorded calls, with the answers that the state prepares for them.
    open spec fn history(&self) -> Seq<BackendCall> {
        history_of(self.state.calls@, self.state.rects@, self.state.apply_batch_result is None)
    }

    /// Only what is listed is answered.
    open spec fn may_answer(&self, window: WindowRef, answer: Option<Rect>) -> bool {
        answer == listed_rect(self.state.rects@, window)
    }

    /// Records the call and looks the window up; one that is not listed is an error.
    fn get_window_rect(&mut self, window: WindowRef) -> (res: Result<Rect, AnimationError>)
        ensures
            final(self).state.recorded(old(self).state),
            final(self).state.calls@.last() == MockCall::GetWindowRect(window),
            match res {
                Ok(r) => old(self).state.rects@.contains_key(window.0) && old(
                    self,
                ).state.rects@[window.0] == r,
                Err(e) => !old(self).state.rects@.contains_key(window.0) && e is Backend
                    && e->Backend_0@ == "window not found"@,
            },
    {
        broadcast use vstd::std_specs::hash::group_hash_axioms;

        self.state.calls.push(MockCall::GetWindowRect(window));
        assert(self.state.calls@.drop_last() =~= old(self).state.calls@);
        match self.state.rects.get(&window.0) {
            Some(r) => Ok(*r),
            None => Err(AnimationError::Backend("window not found".to_owned())),
        }
    }

    /// Records the moves and gives the prepared result.
    fn apply_batch(&mut self, updates: &[(WindowRef, Rect)]) -> (res: Result<
        (),
        AnimationError,
    >)
        ensures
            final(self).state.recorded(old(self).state),
            final(self).state.calls@.last() is ApplyBatch,
            final(self).state.calls@.last()->ApplyBatch_0@ == updates@,
            match old(self).state.apply_batch_result {
                None => res is Ok,
                Some(e) => res == Err::<(), AnimationError>(e),
            },
    {
        self.state.calls.push(MockCall::ApplyBatch(copy_updates(updates)));
        assert(self.state.calls@.drop_last() =~= old(self).state.calls@);
        match &self.state.apply_batch_result {
            None => Ok(()),
            Some(e) => Err(e.copied()),
        }
    }

    /// Records the call.
    fn dwm_flush(&mut self) -> (res: Result<(), AnimationError>)
        ensures
            final(self).state.recorded(old(self).state),
            final(self).state.calls@.last() == MockCall::DwmFlush,
            res is Ok,
    {
        self.state.calls.push(MockCall::DwmFlush);
        assert(self.state.calls@.drop_last() =~= old(self).state.calls@);
        Ok(())
    }
}

} // verus!
