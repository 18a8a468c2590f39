//! What the results of the window system's own calls amount to.
use crate::animation::types::{AnimationError, Rect};
use crate::borders::border::Edges;
use vstd::prelude::*;

verus! {

/// The backend that moves real windows. The calls are made by the program; this type
/// holds what their results amount to.
#[derive(Debug, Clone, Copy, PartialEq, Eq, Structural)]
pub struct Win32Backend;

/// Whether `e` is the cause of the first failure in a list of results.
pub open spec fn first_failure(results: Seq<Result<(), String>>, cause: Seq<char>) -> bool {
    exists|i: int|
        0 <= i < results.len() && #[trigger] results[i] is Err && results[i]->Err_0@ == cause
            && forall|j: int| 0 <= j < i ==> #[trigger] results[j] is Ok
}

impl Win32Backend {
    /// Creates the backend.
    pub fn new() -> (res: Self)
        ensures
            res == Win32Backend,
    {
        Win32Backend
    }

    /// The rectangle of a window from its edges, or the error of asking for them.
    pub fn window_rect(&self, edges: Result<Edges, String>) -> (res: Result<Rect, AnimationError>)
        requires
            edges is Ok ==> edges->Ok_0.fits(),
        ensures
            match edges {
                Ok(e) => res == Ok::<Rect, AnimationError>(
                    Rect {
                        x: e.left,
                        y: e.top,
                        w: (e.right - e.left) as i32,
                        h: (e.bottom - e.top) as i32,
                    },
                ),
                Err(cause) => res == Err::<Rect, AnimationError>(AnimationError::Backend(cause)),
            },
    {
        match edges {
            Ok(e) => Ok(
                Rect { x: e.left, y: e.top, w: e.right - e.left, h: e.bottom - e.top },
            ),
            Err(cause) => Err(AnimationError::Backend(cause)),
        }
    }

    /// The result of moving a list of windows, from the result for each: the first error, if
    /// there is one.
    pub fn batch_result(&self, results: Vec<Result<(), String>>) -> (res: Result<
        (),
        AnimationError,
    >)
        ensures
            res is Ok <==> forall|i: int| 0 <= i < results@.len() ==> #[trigger] results@[i] is Ok,
            res is Err ==> res->Err_0 is Backend && first_failure(
                results@,
                res->Err_0->Backend_0@,
            ),
    {
        let mut i: usize = 0;
        while i < results.len()
            invariant
                i <= results@.len(),
                forall|j: int| 0 <= j < i ==> #[trigger] results@[j] is Ok,
            decreases results@.len() - i,
        {
            if let Err(cause) = &results[i] {
                let e: AnimationError = AnimationError::Backend(cause.clone());
                assert(results@[i as int] is Err);
                return Err(e);
            }
            i = i + 1;
        }
        Ok(())
    }
}

impl Default for Win32Backend {
    fn default() -> (res: Self)
        ensures
            res == Win32Backend,
    {
        Win32Backend::new()
    }
}

/// The cause that is reported is that of the first window that could not be moved.
pub proof fn first_failure_comes_before_all_others(
    results: Seq<Result<(), String>>,
    cause: Seq<char>,
    k: int,
)
    requires
        first_failure(results, cause),
        0 <= k < results.len(),
        results[k] is Err,
        forall|j: int| 0 <= j < k ==> #[trigger] results[j] is Ok,
    ensures
        results[k]->Err_0@ == cause,
{
    let i = choose|i: int|
        0 <= i < results.len() && #[trigger] results[i] is Err && results[i]->Err_0@ == cause
            && forall|j: int| 0 <= j < i ==> #[trigger] results[j] is Ok;
    if i < k {
        assert(results[i] is Ok);
    }
    if k < i {
        assert(results[k] is Ok);
    }
}

} // verus!
