//! The animator: requests on one side, a worker that plays them on the other.
use crate::animation::backend::{answer_rect, same_answers, BackendCall, WindowBackend};
use crate::animation::batch::{
    build_tweens, first_rect, nothing_to_animate_at_the_targets, tweens_for, AnimationBatch,
    Progress, WindowTween,
};
use crate::animation::config::{AnimatorConfig, InterruptPolicy, SizeAnimation};
use crate::animation::types::{
    AnimationError, AnimationHandle, Rect, WindowRef, WindowTarget,
};
use std::collections::VecDeque;
use vstd::prelude::*;

verus! {

/// What the animator asks of its worker.
#[derive(Debug)]
pub enum AnimatorCmd {
    /// Animate windows to their targets.
    Animate {
        /// The targets.
        targets: Vec<WindowTarget>,
        /// The configuration at the time of the request.
        config: AnimatorConfig,
    },
    /// Stop at once and forget what waits.
    Cancel,
    /// Use another configuration from now on.
    UpdateConfig(AnimatorConfig),
    /// Exit.
    Shutdown,
}

/// The animation that is playing, with the configuration that it was started with.
#[derive(Debug)]
pub struct ActiveBatch {
    /// The run.
    pub batch: AnimationBatch,
    /// Its configuration, which later changes do not touch.
    pub config: AnimatorConfig,
}

/// A request that waits for its turn.
#[derive(Debug)]
pub struct PendingBatch {
    /// The targets.
    pub targets: Vec<WindowTarget>,
    /// The configuration at the time of the request.
    pub config: AnimatorConfig,
}

/// State of the worker.
#[derive(Debug)]
pub struct WorkerState {
    /// The configuration seen last.
    pub config: AnimatorConfig,
    /// What is playing.
    pub active: Option<ActiveBatch>,
    /// What waits, first come first served.
    pub queue: VecDeque<PendingBatch>,
}

/// What one step of the animation did.
#[derive(Debug)]
pub struct TickReport {
    /// How far the animation was.
    pub progress: Progress,
    /// Where the windows were put.
    pub frame: Vec<(WindowRef, Rect)>,
    /// What the window system said to that.
    pub applied: Result<(), AnimationError>,
}

// ---------------------------------------------------------------------------
// Requests
// ---------------------------------------------------------------------------

/// The requesting side of the animator.
#[derive(Debug)]
pub struct WindowAnimator {
    /// The configuration that goes with each request.
    pub config: AnimatorConfig,
    /// Identifier of the next request.
    pub next_id: u64,
}

impl WindowAnimator {
    /// An animator with a configuration; the first request gets the identifier one.
    pub fn new(config: AnimatorConfig) -> (res: Self)
        ensures
            res == (WindowAnimator { config, next_id: 1 }),
    {
        WindowAnimator { config, next_id: 1 }
    }

    /// Turns targets into a request for the worker, under a fresh identifier. A request
    /// without targets is an error.
    pub fn animate(&mut self, targets: Vec<WindowTarget>) -> (res: Result<
        (AnimationHandle, AnimatorCmd),
        AnimationError,
    >)
        ensures
            targets@.len() == 0 ==> res == Err::<(AnimationHandle, AnimatorCmd), AnimationError>(
                AnimationError::EmptyBatch,
            ) && *final(self) == *old(self),
            targets@.len() > 0 ==> {
                &&& res == Ok::<(AnimationHandle, AnimatorCmd), AnimationError>(
                    (
                        AnimationHandle(old(self).next_id),
                        AnimatorCmd::Animate { targets, config: old(self).config },
                    ),
                )
                &&& final(self).config == old(self).config
                &&& final(self).next_id == following_id(old(self).next_id)
            },
    {
        if targets.len() == 0 {
            return Err(AnimationError::EmptyBatch);
        }
        let id: u64 = self.next_id;
        self.next_id = if id == u64::MAX { 0 } else { id + 1 };
        Ok((AnimationHandle(id), AnimatorCmd::Animate { targets, config: self.config }))
    }

    /// The outcome of a request once it was handed to the worker, which may have exited.
    pub fn submitted(handle: AnimationHandle, delivered: bool) -> (res: Result<
        AnimationHandle,
        AnimationError,
    >)
        ensures
            res == if delivered {
                Ok::<AnimationHandle, AnimationError>(handle)
            } else {
                Err(AnimationError::WorkerDead)
            },
    {
        if delivered {
            Ok(handle)
        } else {
            Err(AnimationError::WorkerDead)
        }
    }

    /// Replaces the configuration for the requests to come and tells the worker.
    pub fn update_config(&mut self, config: AnimatorConfig) -> (res: AnimatorCmd)
        ensures
            res == AnimatorCmd::UpdateConfig(config),
            *final(self) == (WindowAnimator { config, ..*old(self) }),
    {
        self.config = config;
        AnimatorCmd::UpdateConfig(config)
    }

    /// The request to stop at once.
    pub fn cancel(&self) -> (res: AnimatorCmd)
        ensures
            res == AnimatorCmd::Cancel,
    {
        AnimatorCmd::Cancel
    }
}

// ---------------------------------------------------------------------------
// Worker
// ---------------------------------------------------------------------------

/// The first movement of a window in a list.
pub open spec fn first_tween(tweens: Seq<WindowTween>, window: WindowRef) -> Option<WindowTween>
    decreases tweens.len(),
{
    if tweens.len() == 0 {
        None
    } else if tweens[0].window_ref == window {
        Some(tweens[0])
    } else {
        first_tween(tweens.drop_first(), window)
    }
}

/// The movement of a window in the animation that is playing.
pub open spec fn playing_tween(active: Option<ActiveBatch>, window: WindowRef) -> Option<
    WindowTween,
> {
    match active {
        Some(a) => first_tween(a.batch.tweens@, window),
        None => None,
    }
}

/// Whether `answers` holds, for each target in order, what the window system answered about its
/// window; windows in the animation that is playing are not asked about.
pub open spec fn answers_fit(
    active: Option<ActiveBatch>,
    targets: Seq<WindowTarget>,
    answers: Seq<Option<Result<Rect, AnimationError>>>,
) -> bool {
    &&& answers.len() == targets.len()
    &&& forall|i: int|
        0 <= i < targets.len() ==> (#[trigger] answers[i] is None <==> playing_tween(
            active,
            targets[i].window_ref,
        ) is Some)
}

/// The calls that asking about the windows of a request makes: one for each window that is not
/// being animated, in the order of the targets, with its answer.
pub open spec fn questions(
    targets: Seq<WindowTarget>,
    answers: Seq<Option<Result<Rect, AnimationError>>>,
) -> Seq<BackendCall>
    decreases targets.len(),
{
    if targets.len() == 0 {
        Seq::empty()
    } else {
        let earlier = questions(targets.drop_last(), answers.drop_last());
        match answers.last() {
            Some(answer) => earlier.push(
                BackendCall::Asked {
                    window: targets.last().window_ref,
                    answer: answer_rect(answer),
                },
            ),
            None => earlier,
        }
    }
}

/// Whether every answer is one that the backend can give about that window.
pub open spec fn answers_allowed<B: WindowBackend>(
    backend: B,
    targets: Seq<WindowTarget>,
    answers: Seq<Option<Result<Rect, AnimationError>>>,
) -> bool {
    forall|i: int|
        0 <= i < targets.len() && #[trigger] answers[i] is Some ==> backend.may_answer(
            targets[i].window_ref,
            answer_rect(answers[i]->Some_0),
        )
}

/// The geometry that an answer stands for: a window that cannot be found starts from the empty
/// rectangle.
pub open spec fn rect_or_empty(answer: Option<Rect>) -> Rect {
    match answer {
        Some(rect) => rect,
        None => Rect { x: 0, y: 0, w: 0, h: 0 },
    }
}

/// The geometry to start from when the window system was asked.
pub open spec fn answered_rect(answer: Result<Rect, AnimationError>) -> Rect {
    rect_or_empty(answer_rect(answer))
}

/// Whether `rect` is where a window is at a stage of its movement: at the end where it was to go,
/// and before that where `sample` puts it.
pub open spec fn sampled<S: Fn(WindowTween, AnimatorConfig, Progress) -> Rect>(
    sample: S,
    tween: WindowTween,
    config: AnimatorConfig,
    progress: Progress,
    rect: Rect,
) -> bool {
    if progress.complete() {
        rect == tween.to_rect
    } else {
        sample.ensures((tween, config, progress), rect)
    }
}

/// Where a window is at a stage of its movement.
fn sampled_rect<S: Fn(WindowTween, AnimatorConfig, Progress) -> Rect>(
    sample: &S,
    tween: WindowTween,
    config: AnimatorConfig,
    progress: Progress,
) -> (rect: Rect)
    requires
        forall|args: (WindowTween, AnimatorConfig, Progress)| sample.requires(args),
    ensures
        sampled(*sample, tween, config, progress, rect),
{
    if progress.is_complete() {
        tween.to_rect
    } else {
        sample(tween, config, progress)
    }
}

/// Whether `from` lists, for each target in order, the geometry to start from: where the window
/// takes part in the animation that is playing, the one that it has at the present progress, and
/// otherwise the one that the window system answered.
pub open spec fn start_rects<S: Fn(WindowTween, AnimatorConfig, Progress) -> Rect>(
    active: Option<ActiveBatch>,
    now_ns: u64,
    sample: S,
    targets: Seq<WindowTarget>,
    answers: Seq<Option<Result<Rect, AnimationError>>>,
    from: Seq<(WindowRef, Rect)>,
) -> bool {
    &&& from.len() == targets.len()
    &&& forall|i: int|
        0 <= i < targets.len() ==> (#[trigger] from[i]).0 == targets[i].window_ref
            && match playing_tween(active, targets[i].window_ref) {
            Some(tween) => sampled(
                sample,
                tween,
                active->Some_0.config,
                active->Some_0.batch.progress_at(now_ns),
                from[i].1,
            ),
            None => from[i].1 == answered_rect(answers[i]->Some_0),
        }
}

/// Whether `active` plays the movements that a request asks for from the given geometry.
pub open spec fn plays(
    active: ActiveBatch,
    targets: Seq<WindowTarget>,
    config: AnimatorConfig,
    from: Seq<(WindowRef, Rect)>,
    now_ns: u64,
) -> bool {
    &&& active.config == config
    &&& active.batch.start_ns == now_ns
    &&& active.batch.duration_ns == config.duration_ns
    &&& active.batch.tweens@ == tweens_for(targets, from, config.size_animation)
    &&& active.batch.tweens@.len() > 0
}

/// What starting a request from the given geometry makes of the worker: where something has
/// to move it plays, and otherwise everything stays.
pub open spec fn activation(
    before: WorkerState,
    after: WorkerState,
    targets: Seq<WindowTarget>,
    config: AnimatorConfig,
    from: Seq<(WindowRef, Rect)>,
    now_ns: u64,
) -> bool {
    &&& after.queue == before.queue
    &&& if tweens_for(targets, from, config.size_animation).len() > 0 {
        &&& after.config == config
        &&& after.active is Some
        &&& plays(after.active->Some_0, targets, config, from, now_ns)
    } else {
        &&& after.config == before.config
        &&& after.active == before.active
    }
}

/// What asking about the windows of a request and starting it makes of worker and backend: the
/// backend is asked about each window that is not being animated, and the request starts from what
/// it answers.
pub open spec fn started_with<
    B: WindowBackend,
    S: Fn(WindowTween, AnimatorConfig, Progress) -> Rect,
>(
    before: WorkerState,
    after: WorkerState,
    backend: B,
    backend_after: B,
    targets: Seq<WindowTarget>,
    config: AnimatorConfig,
    now_ns: u64,
    sample: S,
    answers: Seq<Option<Result<Rect, AnimationError>>>,
    from: Seq<(WindowRef, Rect)>,
) -> bool {
    &&& answers_fit(before.active, targets, answers)
    &&& answers_allowed(backend, targets, answers)
    &&& backend_after.history() == backend.history() + questions(targets, answers)
    &&& same_answers(backend_after, backend)
    &&& start_rects(before.active, now_ns, sample, targets, answers, from)
    &&& activation(before, after, targets, config, from, now_ns)
}

/// What was found out about the windows of a waiting request: the answers of the backend, and the
/// geometry to start from.
pub struct Look {
    pub answers: Seq<Option<Result<Rect, AnimationError>>>,
    pub from: Seq<(WindowRef, Rect)>,
}

/// Whether this can be found out about the windows of a request when nothing plays.
pub open spec fn looked_at<
    B: WindowBackend,
    S: Fn(WindowTween, AnimatorConfig, Progress) -> Rect,
>(backend: B, now_ns: u64, sample: S, targets: Seq<WindowTarget>, look: Look) -> bool {
    &&& answers_fit(None, targets, look.answers)
    &&& answers_allowed(backend, targets, look.answers)
    &&& start_rects(None, now_ns, sample, targets, look.answers, look.from)
}

/// The calls that looking at the first requests of a queue makes.
pub open spec fn all_questions(queue: Seq<PendingBatch>, passed: Seq<Look>) -> Seq<BackendCall>
    decreases passed.len(),
{
    if passed.len() == 0 {
        Seq::empty()
    } else {
        all_questions(queue, passed.drop_last()) + questions(
            queue[passed.len() - 1].targets@,
            passed.last().answers,
        )
    }
}

/// What starting a request makes of worker and backend, whatever the backend answers.
pub open spec fn started_by<
    B: WindowBackend,
    S: Fn(WindowTween, AnimatorConfig, Progress) -> Rect,
>(
    before: WorkerState,
    after: WorkerState,
    backend: B,
    backend_after: B,
    targets: Seq<WindowTarget>,
    config: AnimatorConfig,
    now_ns: u64,
    sample: S,
) -> bool {
    exists|answers: Seq<Option<Result<Rect, AnimationError>>>, from: Seq<(WindowRef, Rect)>|
     #[trigger]
        started_with(
            before,
            after,
            backend,
            backend_after,
            targets,
            config,
            now_ns,
            sample,
            answers,
            from,
        )
}

/// The geometry to start from when the window system was asked.
pub fn queried_rect(answer: &Result<Rect, AnimationError>) -> (res: Rect)
    ensures
        res == answered_rect(*answer),
{
    match answer {
        Ok(rect) => *rect,
        Err(_) => Rect::default(),
    }
}

fn find_tween(tweens: &Vec<WindowTween>, window: WindowRef) -> (res: Option<WindowTween>)
    ensures
        res == first_tween(tweens@, window),
{
    let mut i: usize = 0;
    assert(tweens@.skip(0) =~= tweens@);
    while i < tweens.len()
        invariant
            i <= tweens@.len(),
            first_tween(tweens@, window) == first_tween(tweens@.skip(i as int), window),
        decreases tweens@.len() - i,
    {
        proof {
            assert(tweens@.skip(i as int).drop_first() =~= tweens@.skip(i + 1));
        }
        if tweens[i].window_ref == window {
            return Some(tweens[i]);
        }
        i = i + 1;
    }
    None
}

impl WorkerState {
    /// Whether nothing waits while nothing plays, and what plays moves something.
    pub open spec fn well_formed(&self) -> bool {
        match self.active {
            Some(a) => a.batch.tweens@.len() > 0,
            None => self.queue@.len() == 0,
        }
    }

    /// A worker with nothing to do.
    pub fn new(config: AnimatorConfig) -> (res: Self)
        ensures
            res.config == config,
            res.active is None,
            res.queue@.len() == 0,
            res.well_formed(),
    {
        WorkerState { config, active: None, queue: VecDeque::new() }
    }

    /// Whether an animation is playing. A worker that is not animating waits for the next
    /// request; one that is only looks whether there is one.
    pub fn is_animating(&self) -> (res: bool)
        ensures
            res == (self.active is Some),
    {
        self.active.is_some()
    }

    /// The movement of a window in the animation that is playing.
    pub fn find_playing(&self, window: WindowRef) -> (res: Option<WindowTween>)
        ensures
            res == playing_tween(self.active, window),
    {
        match &self.active {
            Some(active) => find_tween(&active.batch.tweens, window),
            None => None,
        }
    }

    /// Asks the window system where the windows of a request are, but for those that are being
    /// animated.
    pub fn query_rects<B: WindowBackend>(
        &self,
        targets: &Vec<WindowTarget>,
        backend: &mut B,
    ) -> (res: Vec<Option<Result<Rect, AnimationError>>>)
        ensures
            answers_fit(self.active, targets@, res@),
            answers_allowed(*old(backend), targets@, res@),
            final(backend).history() == old(backend).history() + questions(targets@, res@),
            same_answers(*final(backend), *old(backend)),
    {
        let mut answers: Vec<Option<Result<Rect, AnimationError>>> = Vec::new();
        let mut i: usize = 0;
        proof {
            assert(backend.history() =~= backend.history() + questions(
                targets@.take(0),
                answers@,
            ));
        }
        while i < targets.len()
            invariant
                i <= targets@.len(),
                answers@.len() == i,
                forall|k: int|
                    0 <= k < i ==> (#[trigger] answers@[k] is None <==> playing_tween(
                        self.active,
                        targets@[k].window_ref,
                    ) is Some),
                forall|k: int|
                    0 <= k < i && #[trigger] answers@[k] is Some ==> old(backend).may_answer(
                        targets@[k].window_ref,
                        answer_rect(answers@[k]->Some_0),
                    ),
                backend.history() == old(backend).history() + questions(
                    targets@.take(i as int),
                    answers@,
                ),
                same_answers(*backend, *old(backend)),
            decreases targets@.len() - i,
        {
            let window: WindowRef = targets[i].window_ref;
            let ghost asked = backend.history();
            let ghost earlier = answers@;
            let answer: Option<Result<Rect, AnimationError>> = match self.find_playing(window) {
                Some(_) => None,
                None => {
                    let reply: Result<Rect, AnimationError> = backend.get_window_rect(window);
                    assert(old(backend).may_answer(window, answer_rect(reply)));
                    Some(reply)
                },
            };
            answers.push(answer);
            proof {
                assert(targets@.take(i + 1).drop_last() =~= targets@.take(i as int));
                assert(targets@.take(i + 1).last().window_ref == window);
                assert(answers@.drop_last() =~= earlier);
                assert(backend.history() =~= old(backend).history() + questions(
                    targets@.take(i + 1),
                    answers@,
                ));
            }
            i = i + 1;
        }
        assert(targets@.take(i as int) =~= targets@);
        answers
    }

    /// The geometry to start a request from. For windows that are being animated it is where
    /// they are at this moment, so that the transition is continuous; for all others it is what
    /// the window system answered.
    pub fn start_rects<S: Fn(WindowTween, AnimatorConfig, Progress) -> Rect>(
        &self,
        targets: &Vec<WindowTarget>,
        answers: &Vec<Option<Result<Rect, AnimationError>>>,
        now_ns: u64,
        sample: &S,
    ) -> (res: Vec<(WindowRef, Rect)>)
        requires
            answers_fit(self.active, targets@, answers@),
            forall|args: (WindowTween, AnimatorConfig, Progress)| sample.requires(args),
        ensures
            start_rects(self.active, now_ns, *sample, targets@, answers@, res@),
    {
        let mut from: Vec<(WindowRef, Rect)> = Vec::new();
        let mut i: usize = 0;
        while i < targets.len()
            invariant
                i <= targets@.len(),
                from@.len() == i,
                answers_fit(self.active, targets@, answers@),
                forall|args: (WindowTween, AnimatorConfig, Progress)| sample.requires(args),
                forall|k: int|
                    0 <= k < i ==> (#[trigger] from@[k]).0 == targets@[k].window_ref
                        && match playing_tween(self.active, targets@[k].window_ref) {
                        Some(tween) => sampled(
                            *sample,
                            tween,
                            self.active->Some_0.config,
                            self.active->Some_0.batch.progress_at(now_ns),
                            from@[k].1,
                        ),
                        None => from@[k].1 == answered_rect(answers@[k]->Some_0),
                    },
            decreases targets@.len() - i,
        {
            let window: WindowRef = targets[i].window_ref;
            assert(answers@[i as int] is None <==> playing_tween(self.active, window) is Some);
            let rect: Rect = match (&self.active, self.find_playing(window), &answers[i]) {
                (Some(active), Some(tween), _) => sampled_rect(
                    sample,
                    tween,
                    active.config,
                    active.batch.progress(now_ns),
                ),
                (_, _, Some(answer)) => queried_rect(answer),
                _ => Rect::default(),
            };
            from.push((window, rect));
            i = i + 1;
        }
        from
    }

    /// Starts a request from the given geometry. Where every window is at its target already,
    /// nothing is started and what plays goes on.
    pub fn activate(
        &mut self,
        pending: PendingBatch,
        from_rects: &Vec<(WindowRef, Rect)>,
        now_ns: u64,
    ) -> (started: bool)
        ensures
            started == (tweens_for(
                pending.targets@,
                from_rects@,
                pending.config.size_animation,
            ).len() > 0),
            activation(
                *old(self),
                *final(self),
                pending.targets@,
                pending.config,
                from_rects@,
                now_ns,
            ),
    {
        let tweens: Vec<WindowTween> = build_tweens(
            pending.targets.as_slice(),
            from_rects.as_slice(),
            &pending.config,
        );
        if tweens.len() == 0 {
            return false;
        }
        let batch: AnimationBatch = AnimationBatch::new(tweens, pending.config.duration_ns, now_ns);
        self.active = Some(ActiveBatch { batch, config: pending.config });
        self.config = pending.config;
        true
    }

    /// Finds out where the windows of a request are and starts it from there.
    pub fn start_batch<
        B: WindowBackend,
        S: Fn(WindowTween, AnimatorConfig, Progress) -> Rect,
    >(&mut self, backend: &mut B, pending: PendingBatch, now_ns: u64, sample: &S) -> (started:
        bool)
        requires
            forall|args: (WindowTween, AnimatorConfig, Progress)| sample.requires(args),
        ensures
            exists|answers: Seq<Option<Result<Rect, AnimationError>>>, from: Seq<(WindowRef, Rect)>|
                {
                    &&& #[trigger] started_with(
                        *old(self),
                        *final(self),
                        *old(backend),
                        *final(backend),
                        pending.targets@,
                        pending.config,
                        now_ns,
                        *sample,
                        answers,
                        from,
                    )
                    &&& started == (tweens_for(
                        pending.targets@,
                        from,
                        pending.config.size_animation,
                    ).len() > 0)
                },
    {
        let answers: Vec<Option<Result<Rect, AnimationError>>> = self.query_rects(
            &pending.targets,
            backend,
        );
        let from: Vec<(WindowRef, Rect)> = self.start_rects(
            &pending.targets,
            &answers,
            now_ns,
            sample,
        );
        let ghost targets = pending.targets@;
        let ghost config = pending.config;
        let started: bool = self.activate(pending, &from, now_ns);
        proof {
            assert(started_with(
                *old(self),
                *self,
                *old(backend),
                *backend,
                targets,
                config,
                now_ns,
                *sample,
                answers@,
                from@,
            ));
        }
        started
    }

    /// Deals with a request as its interrupt policy says: while an animation plays it is
    /// discarded, or waits, or takes over; otherwise it starts.
    pub fn handle_animate<
        B: WindowBackend,
        S: Fn(WindowTween, AnimatorConfig, Progress) -> Rect,
    >(
        &mut self,
        backend: &mut B,
        targets: Vec<WindowTarget>,
        config: AnimatorConfig,
        now_ns: u64,
        sample: &S,
    )
        requires
            old(self).well_formed(),
            forall|args: (WindowTween, AnimatorConfig, Progress)| sample.requires(args),
        ensures
            final(self).well_formed(),
            old(self).active is Some && config.interrupt_policy == InterruptPolicy::DropNew
                ==> *final(self) == *old(self) && *final(backend) == *old(backend),
            old(self).active is Some && config.interrupt_policy
                == InterruptPolicy::QueueAfterCurrent ==> {
                &&& final(self).active == old(self).active
                &&& final(self).config == old(self).config
                &&& final(self).queue@ == old(self).queue@.push(PendingBatch { targets, config })
                &&& *final(backend) == *old(backend)
            },
            old(self).active is None || config.interrupt_policy
                == InterruptPolicy::RetargetFromCurrent ==> started_by(
                *old(self),
                *final(self),
                *old(backend),
                *final(backend),
                targets@,
                config,
                now_ns,
                *sample,
            ),
    {
        match config.interrupt_policy {
            InterruptPolicy::DropNew => {
                if self.active.is_some() {
                    return ;
                }
            },
            InterruptPolicy::QueueAfterCurrent => {
                if self.active.is_some() {
                    self.queue.push_back(PendingBatch { targets, config });
                    return ;
                }
            },
            InterruptPolicy::RetargetFromCurrent => {},
        }
        self.start_batch(backend, PendingBatch { targets, config }, now_ns, sample);
    }

    /// Deals with a command, and says whether the worker goes on.
    pub fn handle_command<
        B: WindowBackend,
        S: Fn(WindowTween, AnimatorConfig, Progress) -> Rect,
    >(&mut self, backend: &mut B, cmd: AnimatorCmd, now_ns: u64, sample: &S) -> (go_on: bool)
        requires
            old(self).well_formed(),
            forall|args: (WindowTween, AnimatorConfig, Progress)| sample.requires(args),
        ensures
            final(self).well_formed(),
            go_on == !(cmd is Shutdown),
            handled(*old(self), *final(self), *old(backend), *final(backend), cmd, now_ns, *sample),
    {
        match cmd {
            AnimatorCmd::Shutdown => false,
            AnimatorCmd::Cancel => {
                self.active = None;
                self.queue.clear();
                true
            },
            AnimatorCmd::UpdateConfig(config) => {
                self.config = config;
                true
            },
            AnimatorCmd::Animate { targets, config } => {
                self.handle_animate(backend, targets, config, now_ns, sample);
                true
            },
        }
    }

    /// Whether starting what waits in `queue` left `after`: requests that have nothing to move
    /// are passed over, the first that has something plays, and the rest goes on waiting. `passed`
    /// holds, for each request that was looked at, what the backend answered about its windows and
    /// the geometry to start from.
    pub open spec fn next_started<
        B: WindowBackend,
        S: Fn(WindowTween, AnimatorConfig, Progress) -> Rect,
    >(
        queue: Seq<PendingBatch>,
        after: WorkerState,
        backend: B,
        now_ns: u64,
        sample: S,
        passed: Seq<Look>,
    ) -> bool {
        &&& passed.len() <= queue.len()
        &&& after.queue@ == queue.skip(passed.len() as int)
        &&& forall|i: int|
            0 <= i < passed.len() ==> looked_at(
                backend,
                now_ns,
                sample,
                queue[i].targets@,
                #[trigger] passed[i],
            )
        &&& forall|i: int|
            0 <= i < passed.len() - 1 ==> tweens_for(
                queue[i].targets@,
                (#[trigger] passed[i]).from,
                queue[i].config.size_animation,
            ).len() == 0
        &&& match after.active {
            Some(active) => passed.len() > 0 && plays(
                active,
                queue[passed.len() - 1].targets@,
                queue[passed.len() - 1].config,
                passed.last().from,
                now_ns,
            ),
            None => passed.len() == queue.len() && (passed.len() > 0 ==> tweens_for(
                queue[passed.len() - 1].targets@,
                passed.last().from,
                queue[passed.len() - 1].config.size_animation,
            ).len() == 0),
        }
    }

    /// Starts the first waiting request that has something to move.
    pub fn start_next<
        B: WindowBackend,
        S: Fn(WindowTween, AnimatorConfig, Progress) -> Rect,
    >(&mut self, backend: &mut B, now_ns: u64, sample: &S)
        requires
            old(self).active is None,
            forall|args: (WindowTween, AnimatorConfig, Progress)| sample.requires(args),
        ensures
            final(self).well_formed(),
            same_answers(*final(backend), *old(backend)),
            exists|passed: Seq<Look>|
                {
                    &&& #[trigger] WorkerState::next_started(
                        old(self).queue@,
                        *final(self),
                        *old(backend),
                        now_ns,
                        *sample,
                        passed,
                    )
                    &&& final(backend).history() == old(backend).history() + all_questions(
                        old(self).queue@,
                        passed,
                    )
                },
    {
        let ghost queue = self.queue@;
        let ghost mut passed: Seq<Look> = Seq::empty();
        proof {
            assert(queue.skip(0) =~= queue);
            assert(backend.history() =~= backend.history() + all_questions(queue, passed));
        }
        loop
            invariant
                queue == old(self).queue@,
                self.active is None,
                passed.len() <= queue.len(),
                self.queue@ == queue.skip(passed.len() as int),
                same_answers(*backend, *old(backend)),
                backend.history() == old(backend).history() + all_questions(queue, passed),
                forall|i: int|
                    0 <= i < passed.len() ==> looked_at(
                        *old(backend),
                        now_ns,
                        *sample,
                        queue[i].targets@,
                        #[trigger] passed[i],
                    ),
                forall|i: int|
                    0 <= i < passed.len() ==> tweens_for(
                        queue[i].targets@,
                        (#[trigger] passed[i]).from,
                        queue[i].config.size_animation,
                    ).len() == 0,
                forall|args: (WindowTween, AnimatorConfig, Progress)| sample.requires(args),
            decreases queue.len() - passed.len(),
        {
            match self.queue.pop_front() {
                None => {
                    assert(passed.len() == queue.len());
                    assert(passed.len() > 0 ==> passed.last() == passed[passed.len() - 1]);
                    assert(WorkerState::next_started(
                        queue,
                        *self,
                        *old(backend),
                        now_ns,
                        *sample,
                        passed,
                    ));
                    return ;
                },
                Some(pending) => {
                    let ghost k = passed.len() as int;
                    assert(pending == queue[k]);
                    assert(self.queue@ =~= queue.skip(k + 1));
                    let ghost before = *self;
                    let ghost backend_before = *backend;
                    let started: bool = self.start_batch(backend, pending, now_ns, sample);
                    proof {
                        let (answers, from) = choose|
                            answers: Seq<Option<Result<Rect, AnimationError>>>,
                            from: Seq<(WindowRef, Rect)>,
                        |
                            {
                                &&& #[trigger] started_with(
                                    before,
                                    *self,
                                    backend_before,
                                    *backend,
                                    pending.targets@,
                                    pending.config,
                                    now_ns,
                                    *sample,
                                    answers,
                                    from,
                                )
                                &&& started == (tweens_for(
                                    pending.targets@,
                                    from,
                                    pending.config.size_animation,
                                ).len() > 0)
                            };
                        let look = Look { answers, from };
                        assert(answers_allowed(*old(backend), pending.targets@, answers));
                        assert(looked_at(
                            *old(backend),
                            now_ns,
                            *sample,
                            pending.targets@,
                            look,
                        ));
                        let earlier = passed;
                        passed = passed.push(look);
                        assert(passed.drop_last() =~= earlier);
                        assert(backend.history() =~= old(backend).history() + all_questions(
                            queue,
                            passed,
                        ));
                    }
                    if started {
                        assert(WorkerState::next_started(
                            queue,
                            *self,
                            *old(backend),
                            now_ns,
                            *sample,
                            passed,
                        ));
                        return ;
                    }
                },
            }
        }
    }

    /// Where the windows of the animation are at its present progress.
    pub fn frame<S: Fn(WindowTween, AnimatorConfig, Progress) -> Rect>(
        active: &ActiveBatch,
        progress: Progress,
        sample: &S,
    ) -> (res: Vec<(WindowRef, Rect)>)
        requires
            forall|args: (WindowTween, AnimatorConfig, Progress)| sample.requires(args),
        ensures
            shows_frame(res@, *active, progress, *sample),
    {
        let mut updates: Vec<(WindowRef, Rect)> = Vec::new();
        let mut i: usize = 0;
        while i < active.batch.tweens.len()
            invariant
                i <= active.batch.tweens@.len(),
                updates@.len() == i,
                forall|args: (WindowTween, AnimatorConfig, Progress)| sample.requires(args),
                forall|k: int|
                    0 <= k < i ==> {
                        &&& (#[trigger] updates@[k]).0 == active.batch.tweens@[k].window_ref
                        &&& sampled(
                            *sample,
                            active.batch.tweens@[k],
                            active.config,
                            progress,
                            updates@[k].1,
                        )
                    },
            decreases active.batch.tweens@.len() - i,
        {
            let tween: WindowTween = active.batch.tweens[i];
            let rect: Rect = sampled_rect(sample, tween, active.config, progress);
            updates.push((tween.window_ref, rect));
            i = i + 1;
        }
        updates
    }

    /// One step of the animation, if one is playing: puts its windows where they are at its
    /// present progress. Where that progress is the end, the animation is over and the next one
    /// starts; otherwise the compositor is waited for.
    ///
    /// The same progress places the windows and decides about the end, so that no animation
    /// ends before its last frame was handed to the backend. An error of the backend does not stop
    /// the animation.
    pub fn tick<
        B: WindowBackend,
        S: Fn(WindowTween, AnimatorConfig, Progress) -> Rect,
    >(&mut self, backend: &mut B, now_ns: u64, sample: &S) -> (res: Option<TickReport>)
        requires
            old(self).well_formed(),
            forall|args: (WindowTween, AnimatorConfig, Progress)| sample.requires(args),
        ensures
            final(self).well_formed(),
            match old(self).active {
                None => {
                    &&& res is None
                    &&& *final(self) == *old(self)
                    &&& *final(backend) == *old(backend)
                },
                Some(active) => {
                    &&& res is Some
                    &&& res->Some_0.progress == active.batch.progress_at(now_ns)
                    &&& ticked(
                        *old(self),
                        *final(self),
                        *old(backend),
                        *final(backend),
                        now_ns,
                        *sample,
                        res->Some_0.frame@,
                        res->Some_0.applied is Ok,
                    )
                },
            },
    {
        let (progress, frame): (Progress, Vec<(WindowRef, Rect)>) = match &self.active {
            None => return None,
            Some(active) => {
                let progress: Progress = active.batch.progress(now_ns);
                (progress, WorkerState::frame(active, progress, sample))
            },
        };
        let applied: Result<(), AnimationError> = backend.apply_batch(frame.as_slice());
        let ghost moved = *backend;
        if progress.is_complete() {
            self.active = None;
            self.start_next(backend, now_ns, sample);
            proof {
                let passed = choose|passed: Seq<Look>|
                    {
                        &&& #[trigger] WorkerState::next_started(
                            old(self).queue@,
                            *self,
                            moved,
                            now_ns,
                            *sample,
                            passed,
                        )
                        &&& backend.history() == moved.history() + all_questions(
                            old(self).queue@,
                            passed,
                        )
                    };
                assert forall|i: int| 0 <= i < passed.len() implies looked_at(
                    *old(backend),
                    now_ns,
                    *sample,
                    old(self).queue@[i].targets@,
                    #[trigger] passed[i],
                ) by {
                    assert(looked_at(
                        moved,
                        now_ns,
                        *sample,
                        old(self).queue@[i].targets@,
                        passed[i],
                    ));
                }
                assert(WorkerState::next_started(
                    old(self).queue@,
                    *self,
                    *old(backend),
                    now_ns,
                    *sample,
                    passed,
                ));
            }
        } else {
            let _ = backend.dwm_flush();
        }
        Some(TickReport { progress, frame, applied })
    }
}

/// What a command makes of worker and backend.
pub open spec fn handled<
    B: WindowBackend,
    S: Fn(WindowTween, AnimatorConfig, Progress) -> Rect,
>(
    before: WorkerState,
    after: WorkerState,
    backend: B,
    backend_after: B,
    cmd: AnimatorCmd,
    now_ns: u64,
    sample: S,
) -> bool {
    match cmd {
        AnimatorCmd::Shutdown => after == before && backend_after == backend,
        AnimatorCmd::Cancel => {
            &&& after.active is None
            &&& after.queue@.len() == 0
            &&& after.config == before.config
            &&& backend_after == backend
        },
        AnimatorCmd::UpdateConfig(config) => {
            &&& after == (WorkerState { config, ..before })
            &&& backend_after == backend
        },
        AnimatorCmd::Animate { targets, config } => if before.active is None
            || config.interrupt_policy == InterruptPolicy::RetargetFromCurrent {
            started_by(
                before,
                after,
                backend,
                backend_after,
                targets@,
                config,
                now_ns,
                sample,
            )
        } else if config.interrupt_policy == InterruptPolicy::DropNew {
            after == before && backend_after == backend
        } else {
            &&& after.active == before.active
            &&& after.config == before.config
            &&& after.queue@ == before.queue@.push(PendingBatch { targets, config })
            &&& backend_after == backend
        },
    }
}

/// What one step of an animation that is playing makes of worker and backend: the frame is handed
/// to the backend, which says whether that went well. Whatever it says, the compositor is then
/// waited for, or the animation is over and the next request is looked for.
pub open spec fn ticked<
    B: WindowBackend,
    S: Fn(WindowTween, AnimatorConfig, Progress) -> Rect,
>(
    before: WorkerState,
    after: WorkerState,
    backend: B,
    backend_after: B,
    now_ns: u64,
    sample: S,
    frame: Seq<(WindowRef, Rect)>,
    ok: bool,
) -> bool {
    let active = before.active->Some_0;
    let progress = active.batch.progress_at(now_ns);
    let moved = backend.history().push(BackendCall::Moved { updates: frame, ok });
    &&& before.active is Some
    &&& shows_frame(frame, active, progress, sample)
    &&& same_answers(backend_after, backend)
    &&& if progress.complete() {
        exists|passed: Seq<Look>|
            {
                &&& #[trigger] WorkerState::next_started(
                    before.queue@,
                    after,
                    backend,
                    now_ns,
                    sample,
                    passed,
                )
                &&& backend_after.history() == moved + all_questions(before.queue@, passed)
            }
    } else {
        &&& after == before
        &&& backend_after.history() == moved.push(BackendCall::Paced)
    }
}

/// Whether a frame lists, for each movement in order, its window and where that is.
pub open spec fn shows_frame<S: Fn(WindowTween, AnimatorConfig, Progress) -> Rect>(
    frame: Seq<(WindowRef, Rect)>,
    active: ActiveBatch,
    progress: Progress,
    sample: S,
) -> bool {
    &&& frame.len() == active.batch.tweens@.len()
    &&& forall|i: int|
        0 <= i < frame.len() ==> {
            &&& (#[trigger] frame[i]).0 == active.batch.tweens@[i].window_ref
            &&& sampled(sample, active.batch.tweens@[i], active.config, progress, frame[i].1)
        }
}

// ---------------------------------------------------------------------------
// What holds of the animator as a whole
// ---------------------------------------------------------------------------

/// The last frame of an animation puts every window exactly where it was to go.
pub proof fn last_frame_reaches_the_targets<
    S: Fn(WindowTween, AnimatorConfig, Progress) -> Rect,
>(sample: S, active: ActiveBatch, progress: Progress, frame: Seq<(WindowRef, Rect)>)
    requires
        progress.complete(),
        shows_frame(frame, active, progress, sample),
    ensures
        forall|i: int|
            0 <= i < frame.len() ==> #[trigger] frame[i] == (
                active.batch.tweens@[i].window_ref,
                active.batch.tweens@[i].to_rect,
            ),
{
    assert forall|i: int| 0 <= i < frame.len() implies #[trigger] frame[i] == (
        active.batch.tweens@[i].window_ref,
        active.batch.tweens@[i].to_rect,
    ) by {
        assert(sampled(sample, active.batch.tweens@[i], active.config, progress, frame[i].1));
    }
}

/// Where the windows of an animation are to go, in its order.
pub open spec fn destinations(active: ActiveBatch) -> Seq<(WindowRef, Rect)> {
    Seq::new(
        active.batch.tweens@.len(),
        |i: int| (active.batch.tweens@[i].window_ref, active.batch.tweens@[i].to_rect),
    )
}

/// Whether the last time that windows were moved, it was by these updates.
pub open spec fn last_moved(history: Seq<BackendCall>, updates: Seq<(WindowRef, Rect)>) -> bool {
    exists|k: int|
        {
            &&& 0 <= k < history.len()
            &&& (#[trigger] history[k]) is Moved
            &&& history[k]->updates == updates
            &&& forall|j: int| k < j < history.len() ==> !(#[trigger] history[j] is Moved)
        }
}

proof fn lemma_questions_move_nothing(
    targets: Seq<WindowTarget>,
    answers: Seq<Option<Result<Rect, AnimationError>>>,
)
    ensures
        forall|j: int|
            0 <= j < questions(targets, answers).len() ==> #[trigger] questions(
                targets,
                answers,
            )[j] is Asked,
    decreases targets.len(),
{
    if targets.len() > 0 {
        lemma_questions_move_nothing(targets.drop_last(), answers.drop_last());
    }
}

proof fn lemma_all_questions_move_nothing(queue: Seq<PendingBatch>, passed: Seq<Look>)
    ensures
        forall|j: int|
            0 <= j < all_questions(queue, passed).len() ==> #[trigger] all_questions(
                queue,
                passed,
            )[j] is Asked,
    decreases passed.len(),
{
    if passed.len() > 0 {
        lemma_all_questions_move_nothing(queue, passed.drop_last());
        lemma_questions_move_nothing(
            queue[passed.len() - 1].targets@,
            passed.last().answers,
        );
    }
}

/// The step that ends an animation hands the backend the destinations of its windows, and moves
/// nothing after that.
pub proof fn last_move_is_to_the_destinations<
    B: WindowBackend,
    S: Fn(WindowTween, AnimatorConfig, Progress) -> Rect,
>(
    before: WorkerState,
    after: WorkerState,
    backend: B,
    backend_after: B,
    now_ns: u64,
    sample: S,
    frame: Seq<(WindowRef, Rect)>,
    ok: bool,
)
    requires
        ticked(before, after, backend, backend_after, now_ns, sample, frame, ok),
        before.active->Some_0.batch.progress_at(now_ns).complete(),
    ensures
        frame == destinations(before.active->Some_0),
        last_moved(backend_after.history(), destinations(before.active->Some_0)),
{
    let active = before.active->Some_0;
    let progress = active.batch.progress_at(now_ns);
    last_frame_reaches_the_targets(sample, active, progress, frame);
    assert(frame =~= destinations(active));
    let moved = backend.history().push(BackendCall::Moved { updates: frame, ok });
    let passed = choose|passed: Seq<Look>|
        {
            &&& #[trigger] WorkerState::next_started(
                before.queue@,
                after,
                backend,
                now_ns,
                sample,
                passed,
            )
            &&& backend_after.history() == moved + all_questions(before.queue@, passed)
        };
    lemma_all_questions_move_nothing(before.queue@, passed);
    let k = backend.history().len() as int;
    let rest = all_questions(before.queue@, passed);
    assert(backend_after.history()[k] == moved[k]);
    assert forall|j: int| k < j < backend_after.history().len() implies !(
    #[trigger] backend_after.history()[j] is Moved) by {
        assert(backend_after.history()[j] == rest[j - k - 1]);
    }
}

/// Something that the worker does.
pub enum WorkerStep {
    /// It deals with a command.
    Command { cmd: AnimatorCmd, now_ns: u64 },
    /// It shows a frame.
    Tick { now_ns: u64, frame: Seq<(WindowRef, Rect)>, ok: bool },
}

/// What a step makes of worker and backend.
pub open spec fn stepped<
    B: WindowBackend,
    S: Fn(WindowTween, AnimatorConfig, Progress) -> Rect,
>(
    before: WorkerState,
    after: WorkerState,
    backend: B,
    backend_after: B,
    step: WorkerStep,
    sample: S,
) -> bool {
    match step {
        WorkerStep::Command { cmd, now_ns } => handled(
            before,
            after,
            backend,
            backend_after,
            cmd,
            now_ns,
            sample,
        ),
        WorkerStep::Tick { now_ns, frame, ok } => ticked(
            before,
            after,
            backend,
            backend_after,
            now_ns,
            sample,
            frame,
            ok,
        ),
    }
}

/// Whether a step neither takes over from the animation that is playing, nor stops it, nor is
/// its end: a frame before the end, a change of the configuration, or a request that waits or is
/// dropped.
pub open spec fn lets_play(active: ActiveBatch, step: WorkerStep) -> bool {
    match step {
        WorkerStep::Command { cmd, now_ns } => match cmd {
            AnimatorCmd::UpdateConfig(_) => true,
            AnimatorCmd::Animate { targets, config } => config.interrupt_policy
                != InterruptPolicy::RetargetFromCurrent,
            AnimatorCmd::Cancel | AnimatorCmd::Shutdown => false,
        },
        WorkerStep::Tick { now_ns, frame, ok } => !active.batch.progress_at(now_ns).complete(),
    }
}

/// An animation that nothing stops plays to its end. Whatever else happens meanwhile, a change of
/// the configuration among it, the last that the backend gets to move for it are the
/// destinations that it had when it started.
pub proof fn animations_end_at_their_destinations<
    B: WindowBackend,
    S: Fn(WindowTween, AnimatorConfig, Progress) -> Rect,
>(
    states: Seq<WorkerState>,
    backends: Seq<B>,
    steps: Seq<WorkerStep>,
    sample: S,
    active: ActiveBatch,
    end_ns: u64,
    frame: Seq<(WindowRef, Rect)>,
    ok: bool,
)
    requires
        steps.len() > 0,
        states.len() == steps.len() + 1,
        backends.len() == steps.len() + 1,
        states[0].active == Some(active),
        forall|i: int|
            0 <= i < steps.len() ==> #[trigger] stepped(
                states[i],
                states[i + 1],
                backends[i],
                backends[i + 1],
                steps[i],
                sample,
            ),
        forall|i: int| 0 <= i < steps.len() - 1 ==> lets_play(active, #[trigger] steps[i]),
        steps.last() == (WorkerStep::Tick { now_ns: end_ns, frame, ok }),
        active.batch.progress_at(end_ns).complete(),
    ensures
        forall|i: int|
            0 <= i < steps.len() ==> (#[trigger] states[i]).active == Some(active),
        last_moved(backends.last().history(), destinations(active)),
{
    let n = steps.len() - 1;
    assert forall|i: int| 0 <= i < steps.len() implies (#[trigger] states[i]).active == Some(
        active,
    ) by {
        lemma_plays_on(states, backends, steps, sample, active, i);
    }
    assert(stepped(states[n], states[n + 1], backends[n], backends[n + 1], steps[n], sample));
    last_move_is_to_the_destinations(
        states[n],
        states[n + 1],
        backends[n],
        backends[n + 1],
        end_ns,
        sample,
        frame,
        ok,
    );
}

proof fn lemma_plays_on<
    B: WindowBackend,
    S: Fn(WindowTween, AnimatorConfig, Progress) -> Rect,
>(
    states: Seq<WorkerState>,
    backends: Seq<B>,
    steps: Seq<WorkerStep>,
    sample: S,
    active: ActiveBatch,
    i: int,
)
    requires
        states.len() == steps.len() + 1,
        states[0].active == Some(active),
        forall|k: int|
            0 <= k < steps.len() ==> #[trigger] stepped(
                states[k],
                states[k + 1],
                backends[k],
                backends[k + 1],
                steps[k],
                sample,
            ),
        forall|k: int| 0 <= k < steps.len() - 1 ==> lets_play(active, #[trigger] steps[k]),
        0 <= i < steps.len(),
    ensures
        states[i].active == Some(active),
    decreases i,
{
    if i > 0 {
        let k = i - 1;
        lemma_plays_on(states, backends, steps, sample, active, k);
        assert(stepped(states[k], states[k + 1], backends[k], backends[k + 1], steps[k], sample));
        assert(lets_play(active, steps[k]));
    }
}

/// Whether the window of a target stands there already, as far as the backend can answer.
pub open spec fn stands_at_target<B: WindowBackend>(backend: B, target: WindowTarget) -> bool {
    forall|answer: Option<Rect>| #[trigger]
        backend.may_answer(target.window_ref, answer) ==> rect_or_empty(answer) == target.rect()
}

/// Whether the window of a target stands elsewhere, as far as the backend can answer.
pub open spec fn stands_elsewhere<B: WindowBackend>(backend: B, target: WindowTarget) -> bool {
    forall|answer: Option<Rect>| #[trigger]
        backend.may_answer(target.window_ref, answer) ==> rect_or_empty(answer) != target.rect()
}

proof fn lemma_first_listed(from: Seq<(WindowRef, Rect)>, i: int) -> (j: int)
    requires
        0 <= i < from.len(),
    ensures
        0 <= j < from.len(),
        from[j].0 == from[i].0,
        first_rect(from, from[i].0) == Some(from[j].1),
    decreases from.len(),
{
    if from[0].0 == from[i].0 {
        0
    } else {
        assert(from.drop_first()[i - 1] == from[i]);
        lemma_first_listed(from.drop_first(), i - 1) + 1
    }
}

proof fn lemma_standing_windows_need_no_movement<
    B: WindowBackend,
    S: Fn(WindowTween, AnimatorConfig, Progress) -> Rect,
>(
    active: Option<ActiveBatch>,
    backend: B,
    now_ns: u64,
    sample: S,
    targets: Seq<WindowTarget>,
    answers: Seq<Option<Result<Rect, AnimationError>>>,
    from: Seq<(WindowRef, Rect)>,
    size_animation: SizeAnimation,
)
    requires
        answers_fit(active, targets, answers),
        answers_allowed(backend, targets, answers),
        start_rects(active, now_ns, sample, targets, answers, from),
        forall|i: int|
            0 <= i < targets.len() ==> stands_at_target(backend, #[trigger] targets[i])
                && playing_tween(active, targets[i].window_ref) is None,
    ensures
        tweens_for(targets, from, size_animation).len() == 0,
{
    assert forall|i: int| 0 <= i < targets.len() implies first_rect(
        from,
        (#[trigger] targets[i]).window_ref,
    ) == Some(targets[i].rect()) by {
        assert(from[i].0 == targets[i].window_ref);
        let j = lemma_first_listed(from, i);
        assert(from[j].0 == targets[j].window_ref);
        assert(stands_at_target(backend, targets[j]));
        assert(stands_at_target(backend, targets[i]));
        assert(answers[j] is Some);
        assert(backend.may_answer(
            targets[i].window_ref,
            answer_rect(answers[j]->Some_0),
        ));
    }
    nothing_to_animate_at_the_targets(targets, from, size_animation);
}

proof fn lemma_tween_for_each_difference(
    targets: Seq<WindowTarget>,
    from: Seq<(WindowRef, Rect)>,
    size_animation: SizeAnimation,
    i: int,
)
    requires
        0 <= i < targets.len(),
        first_rect(from, targets[i].window_ref) is Some,
        first_rect(from, targets[i].window_ref)->Some_0 != targets[i].rect(),
    ensures
        exists|k: int|
            0 <= k < tweens_for(targets, from, size_animation).len() && (#[trigger] tweens_for(
                targets,
                from,
                size_animation,
            )[k]).window_ref == targets[i].window_ref && tweens_for(
                targets,
                from,
                size_animation,
            )[k].to_rect == targets[i].rect(),
    decreases targets.len(),
{
    let all = tweens_for(targets, from, size_animation);
    let earlier = tweens_for(targets.drop_last(), from, size_animation);
    if i == targets.len() - 1 {
        assert(all == earlier.push(all.last()));
        assert(all[all.len() - 1].window_ref == targets[i].window_ref);
    } else {
        assert(targets.drop_last()[i] == targets[i]);
        lemma_tween_for_each_difference(targets.drop_last(), from, size_animation, i);
        let k = choose|k: int|
            0 <= k < earlier.len() && (#[trigger] earlier[k]).window_ref == targets[i].window_ref
                && earlier[k].to_rect == targets[i].rect();
        assert(all[k] == earlier[k]);
    }
}

/// A request whose windows are at their targets already, none of them being animated, changes
/// nothing but that the backend was asked.
pub proof fn requests_with_nothing_to_move_start_nothing<
    B: WindowBackend,
    S: Fn(WindowTween, AnimatorConfig, Progress) -> Rect,
>(
    before: WorkerState,
    after: WorkerState,
    backend: B,
    backend_after: B,
    targets: Seq<WindowTarget>,
    config: AnimatorConfig,
    now_ns: u64,
    sample: S,
)
    requires
        started_by(before, after, backend, backend_after, targets, config, now_ns, sample),
        forall|i: int|
            0 <= i < targets.len() ==> stands_at_target(backend, #[trigger] targets[i])
                && playing_tween(before.active, targets[i].window_ref) is None,
    ensures
        after.active == before.active,
        after.queue == before.queue,
        after.config == before.config,
{
    let (answers, from) = choose|
        answers: Seq<Option<Result<Rect, AnimationError>>>,
        from: Seq<(WindowRef, Rect)>,
    | #[trigger]
        started_with(
            before,
            after,
            backend,
            backend_after,
            targets,
            config,
            now_ns,
            sample,
            answers,
            from,
        );
    lemma_standing_windows_need_no_movement(
        before.active,
        backend,
        now_ns,
        sample,
        targets,
        answers,
        from,
        config.size_animation,
    );
}

/// Of the waiting requests the first that has something to move plays, however many with nothing
/// to move wait before it, and those behind it go on waiting. Every window of it that stands
/// elsewhere is moved to its target.
pub proof fn first_request_with_something_to_move_plays<
    B: WindowBackend,
    S: Fn(WindowTween, AnimatorConfig, Progress) -> Rect,
>(
    queue: Seq<PendingBatch>,
    after: WorkerState,
    backend: B,
    now_ns: u64,
    sample: S,
    passed: Seq<Look>,
    k: int,
    t: int,
)
    requires
        WorkerState::next_started(queue, after, backend, now_ns, sample, passed),
        0 <= k < queue.len(),
        forall|i: int, j: int|
            0 <= i < k && 0 <= j < queue[i].targets@.len() ==> stands_at_target(
                backend,
                #[trigger] queue[i].targets@[j],
            ),
        0 <= t < queue[k].targets@.len(),
        stands_elsewhere(backend, queue[k].targets@[t]),
    ensures
        after.queue@ == queue.skip(k + 1),
        after.active is Some,
        after.active->Some_0.config == queue[k].config,
        after.active->Some_0.batch.start_ns == now_ns,
        after.active->Some_0.batch.duration_ns == queue[k].config.duration_ns,
        destinations(after.active->Some_0).contains(
            (queue[k].targets@[t].window_ref, queue[k].targets@[t].rect()),
        ),
{
    assert forall|i: int| 0 <= i < passed.len() && i < k implies tweens_for(
        queue[i].targets@,
        (#[trigger] passed[i]).from,
        queue[i].config.size_animation,
    ).len() == 0 by {
        let targets = queue[i].targets@;
        assert(looked_at(backend, now_ns, sample, targets, passed[i]));
        assert forall|j: int| 0 <= j < targets.len() implies stands_at_target(
            backend,
            #[trigger] targets[j],
        ) && playing_tween(None, targets[j].window_ref) is None by {
            assert(stands_at_target(backend, queue[i].targets@[j]));
        }
        lemma_standing_windows_need_no_movement(
            None,
            backend,
            now_ns,
            sample,
            targets,
            passed[i].answers,
            passed[i].from,
            queue[i].config.size_animation,
        );
    }
    let last = passed.len() - 1;
    if last >= 0 {
        assert(passed[last] == passed.last());
    }
    assert(last >= k);
    let targets = queue[k].targets@;
    let look = passed[k];
    assert(looked_at(backend, now_ns, sample, targets, look));
    assert(look.from[t].0 == targets[t].window_ref);
    let j = lemma_first_listed(look.from, t);
    assert(look.from[j].0 == targets[j].window_ref);
    assert(look.answers[j] is Some);
    assert(backend.may_answer(targets[t].window_ref, answer_rect(look.answers[j]->Some_0)));
    lemma_tween_for_each_difference(targets, look.from, queue[k].config.size_animation, t);
    let tweens = tweens_for(targets, look.from, queue[k].config.size_animation);
    let m = choose|m: int|
        0 <= m < tweens.len() && (#[trigger] tweens[m]).window_ref == targets[t].window_ref
            && tweens[m].to_rect == targets[t].rect();
    assert(last == k);
    assert(destinations(after.active->Some_0)[m] == (targets[t].window_ref, targets[t].rect()));
}

/// When an animation ends, the first waiting request that has something to move is played, and
/// where nothing stops it, the last that the backend gets to move for it are its destinations, with
/// every window among them that stood elsewhere.
pub proof fn waiting_request_ends_at_its_destinations<
    B: WindowBackend,
    S: Fn(WindowTween, AnimatorConfig, Progress) -> Rect,
>(
    before: WorkerState,
    backend: B,
    last_frame: Seq<(WindowRef, Rect)>,
    last_ok: bool,
    now_ns: u64,
    k: int,
    t: int,
    states: Seq<WorkerState>,
    backends: Seq<B>,
    steps: Seq<WorkerStep>,
    sample: S,
    end_ns: u64,
    frame: Seq<(WindowRef, Rect)>,
    ok: bool,
)
    requires
        steps.len() > 0,
        states.len() == steps.len() + 1,
        backends.len() == steps.len() + 1,
        ticked(before, states[0], backend, backends[0], now_ns, sample, last_frame, last_ok),
        before.active->Some_0.batch.progress_at(now_ns).complete(),
        0 <= k < before.queue@.len(),
        forall|i: int, j: int|
            0 <= i < k && 0 <= j < before.queue@[i].targets@.len() ==> stands_at_target(
                backend,
                #[trigger] before.queue@[i].targets@[j],
            ),
        0 <= t < before.queue@[k].targets@.len(),
        stands_elsewhere(backend, before.queue@[k].targets@[t]),
        forall|i: int|
            0 <= i < steps.len() ==> #[trigger] stepped(
                states[i],
                states[i + 1],
                backends[i],
                backends[i + 1],
                steps[i],
                sample,
            ),
        forall|i: int|
            0 <= i < steps.len() - 1 && states[0].active is Some ==> lets_play(
                states[0].active->Some_0,
                #[trigger] steps[i],
            ),
        steps.last() == (WorkerStep::Tick { now_ns: end_ns, frame, ok }),
        now_ns <= end_ns,
        end_ns - now_ns >= before.queue@[k].config.duration_ns,
    ensures
        states[0].active is Some,
        last_moved(backends.last().history(), destinations(states[0].active->Some_0)),
        destinations(states[0].active->Some_0).contains(
            (before.queue@[k].targets@[t].window_ref, before.queue@[k].targets@[t].rect()),
        ),
{
    let moved = backend.history().push(BackendCall::Moved { updates: last_frame, ok: last_ok });
    let passed = choose|passed: Seq<Look>|
        {
            &&& #[trigger] WorkerState::next_started(
                before.queue@,
                states[0],
                backend,
                now_ns,
                sample,
                passed,
            )
            &&& backends[0].history() == moved + all_questions(before.queue@, passed)
        };
    first_request_with_something_to_move_plays(
        before.queue@,
        states[0],
        backend,
        now_ns,
        sample,
        passed,
        k,
        t,
    );
    let active = states[0].active->Some_0;
    assert(active.batch.progress_at(end_ns).complete());
    animations_end_at_their_destinations(
        states,
        backends,
        steps,
        sample,
        active,
        end_ns,
        frame,
        ok,
    );
}

/// An animation without duration is over with its first frame.
pub proof fn zero_duration_is_over_at_once(active: ActiveBatch, now_ns: u64)
    requires
        active.batch.duration_ns == 0,
    ensures
        active.batch.progress_at(now_ns).complete(),
{
}

/// A window that is being animated starts its next movement from where it is: a request that
/// takes over shows no jump.
pub proof fn taking_over_is_continuous<S: Fn(WindowTween, AnimatorConfig, Progress) -> Rect>(
    active: ActiveBatch,
    now_ns: u64,
    sample: S,
    targets: Seq<WindowTarget>,
    answers: Seq<Option<Result<Rect, AnimationError>>>,
    from: Seq<(WindowRef, Rect)>,
    i: int,
    tween: WindowTween,
)
    requires
        start_rects(Some(active), now_ns, sample, targets, answers, from),
        0 <= i < targets.len(),
        first_tween(active.batch.tweens@, targets[i].window_ref) == Some(tween),
    ensures
        from[i].0 == targets[i].window_ref,
        sampled(sample, tween, active.config, active.batch.progress_at(now_ns), from[i].1),
{
    assert(from[i].0 == targets[i].window_ref);
}

/// The identifier after another one. It begins again at zero after the greatest.
pub open spec fn following_id(id: u64) -> u64 {
    if id == u64::MAX {
        0
    } else {
        (id + 1) as u64
    }
}

/// The identifiers that an animator hands out one after the other start at one and grow, until
/// there is none left that is greater.
pub proof fn identifiers_grow(next_ids: Seq<u64>, i: int, j: int)
    requires
        next_ids.len() <= u64::MAX,
        0 <= i < j < next_ids.len(),
        next_ids[0] == 1,
        forall|k: int|
            0 < k < next_ids.len() ==> #[trigger] next_ids[k] == following_id(next_ids[k - 1]),
    ensures
        next_ids[i] == i + 1,
        1 <= next_ids[i] < next_ids[j],
    decreases j,
{
    if i > 0 {
        identifiers_grow(next_ids, i - 1, i);
        assert(next_ids[i] == following_id(next_ids[i - 1]));
    }
    assert(next_ids[j] == following_id(next_ids[j - 1]));
    if i < j - 1 {
        identifiers_grow(next_ids, i, j - 1);
        identifiers_grow(next_ids, j - 2, j - 1);
        assert(next_ids[j - 1] == following_id(next_ids[j - 2]));
    }
}

/// Waiting requests are neither lost nor reordered: those behind the one that starts go on
/// waiting in their order, and nothing is left waiting when nothing starts.
pub proof fn waiting_requests_keep_their_order<
    B: WindowBackend,
    S: Fn(WindowTween, AnimatorConfig, Progress) -> Rect,
>(
    queue: Seq<PendingBatch>,
    after: WorkerState,
    backend: B,
    now_ns: u64,
    sample: S,
    passed: Seq<Look>,
)
    requires
        WorkerState::next_started(queue, after, backend, now_ns, sample, passed),
    ensures
        after.queue@ == queue.skip(queue.len() - after.queue@.len()),
        after.active is None ==> after.queue@.len() == 0,
        queue.len() > 0 ==> after.queue@.len() < queue.len(),
{
}

/// The movement that is found for a window is the first one in the list, if it has one.
pub proof fn first_movement_of_a_window_counts(tweens: Seq<WindowTween>, window: WindowRef)
    ensures
        match first_tween(tweens, window) {
            Some(tween) => exists|i: int|
                0 <= i < tweens.len() && #[trigger] tweens[i] == tween && tween.window_ref == window
                    && forall|j: int| 0 <= j < i ==> (#[trigger] tweens[j]).window_ref != window,
            None => forall|i: int|
                0 <= i < tweens.len() ==> (#[trigger] tweens[i]).window_ref != window,
        },
    decreases tweens.len(),
{
    if tweens.len() > 0 {
        let rest = tweens.drop_first();
        first_movement_of_a_window_counts(rest, window);
        if tweens[0].window_ref == window {
            assert(tweens[0] == first_tween(tweens, window)->Some_0);
        } else {
            match first_tween(rest, window) {
                Some(tween) => {
                    let i = choose|i: int|
                        0 <= i < rest.len() && #[trigger] rest[i] == tween && tween.window_ref
                            == window && forall|j: int|
                            0 <= j < i ==> (#[trigger] rest[j]).window_ref != window;
                    assert(tweens[i + 1] == tween);
                    assert forall|j: int| 0 <= j < i + 1 implies (
                    #[trigger] tweens[j]).window_ref != window by {
                        if j > 0 {
                            assert(rest[j - 1] == tweens[j]);
                        }
                    }
                },
                None => {
                    assert forall|i: int| 0 <= i < tweens.len() implies (
                    #[trigger] tweens[i]).window_ref != window by {
                        if i > 0 {
                            assert(rest[i - 1] == tweens[i]);
                        }
                    }
                },
            }
        }
    }
}

/// The backend is asked about each window that is not being animated, once for each target and in
/// their order, and about no other. What it answers is recorded as it is.
pub proof fn each_resting_window_is_asked_about(
    active: Option<ActiveBatch>,
    targets: Seq<WindowTarget>,
    target: WindowTarget,
    answers: Seq<Option<Result<Rect, AnimationError>>>,
    answer: Option<Result<Rect, AnimationError>>,
)
    requires
        answers_fit(active, targets.push(target), answers.push(answer)),
    ensures
        questions(Seq::empty(), Seq::empty()).len() == 0,
        answer is None <==> active is Some && exists|i: int|
            0 <= i < active->Some_0.batch.tweens@.len() && (
            #[trigger] active->Some_0.batch.tweens@[i]).window_ref == target.window_ref,
        questions(targets.push(target), answers.push(answer)) == match answer {
            None => questions(targets, answers),
            Some(Ok(rect)) => questions(targets, answers).push(
                BackendCall::Asked { window: target.window_ref, answer: Some(rect) },
            ),
            Some(Err(_)) => questions(targets, answers).push(
                BackendCall::Asked { window: target.window_ref, answer: None },
            ),
        },
{
    let n = targets.len() as int;
    assert(targets.push(target).drop_last() =~= targets);
    assert(answers.push(answer).len() == targets.push(target).len());
    assert(answers.push(answer).drop_last() =~= answers);
    assert(answers.push(answer)[n] is None <==> playing_tween(
        active,
        targets.push(target)[n].window_ref,
    ) is Some);
    if active is Some {
        first_movement_of_a_window_counts(active->Some_0.batch.tweens@, target.window_ref);
    }
}

/// Where a request starts from. A window that is being animated starts from where it is: at its
/// target once the duration has passed, and before that where it is put after the time that has
/// passed. Any other window starts from the rectangle that was answered, or from the empty one at
/// the origin where it could not be found.
pub proof fn requests_start_from_where_the_windows_are<
    S: Fn(WindowTween, AnimatorConfig, Progress) -> Rect,
>(
    active: Option<ActiveBatch>,
    now_ns: u64,
    sample: S,
    targets: Seq<WindowTarget>,
    answers: Seq<Option<Result<Rect, AnimationError>>>,
    from: Seq<(WindowRef, Rect)>,
    i: int,
)
    requires
        start_rects(active, now_ns, sample, targets, answers, from),
        0 <= i < targets.len(),
    ensures
        from.len() == targets.len(),
        from[i].0 == targets[i].window_ref,
        playing_tween(active, targets[i].window_ref) is None && answers[i] is Some ==> from[i].1
            == match answers[i]->Some_0 {
            Ok(rect) => rect,
            Err(_) => Rect { x: 0, y: 0, w: 0, h: 0 },
        },
        playing_tween(active, targets[i].window_ref) is Some ==> ({
            let a = active->Some_0;
            let tween = playing_tween(active, targets[i].window_ref)->Some_0;
            let (start, duration) = (a.batch.start_ns, a.batch.duration_ns);
            &&& start + duration <= now_ns ==> from[i].1 == tween.to_rect
            &&& start <= now_ns < start + duration ==> sample.ensures(
                (
                    tween,
                    a.config,
                    Progress { elapsed: (now_ns - start) as u64, total: duration },
                ),
                from[i].1,
            )
        }),
{
    assert(from[i].0 == targets[i].window_ref);
}

/// Every frame places each window of the animation, in its order: at its target once the duration
/// has passed, and before that where it is put after the time that has passed, with the
/// configuration that the animation was started with.
pub proof fn frames_show_the_time_that_has_passed<
    S: Fn(WindowTween, AnimatorConfig, Progress) -> Rect,
>(active: ActiveBatch, now_ns: u64, sample: S, frame: Seq<(WindowRef, Rect)>, i: int)
    requires
        shows_frame(frame, active, active.batch.progress_at(now_ns), sample),
        0 <= i < active.batch.tweens@.len(),
    ensures
        frame.len() == active.batch.tweens@.len(),
        frame[i].0 == active.batch.tweens@[i].window_ref,
        ({
            let tween = active.batch.tweens@[i];
            let (start, duration) = (active.batch.start_ns, active.batch.duration_ns);
            &&& start + duration <= now_ns ==> frame[i].1 == tween.to_rect
            &&& start <= now_ns < start + duration ==> sample.ensures(
                (
                    tween,
                    active.config,
                    Progress { elapsed: (now_ns - start) as u64, total: duration },
                ),
                frame[i].1,
            )
        }),
{
    assert(frame[i].0 == active.batch.tweens@[i].window_ref);
}

/// A step of an animation moves its windows once. Before the duration has passed it waits for the
/// compositor after that, and goes on as it was. Once it has passed the animation is over, and what
/// plays then, if anything, was started at that moment.
pub proof fn steps_move_once_and_wait_or_end<
    B: WindowBackend,
    S: Fn(WindowTween, AnimatorConfig, Progress) -> Rect,
>(
    before: WorkerState,
    after: WorkerState,
    backend: B,
    backend_after: B,
    now_ns: u64,
    sample: S,
    frame: Seq<(WindowRef, Rect)>,
    ok: bool,
)
    requires
        ticked(before, after, backend, backend_after, now_ns, sample, frame, ok),
    ensures
        before.active is Some,
        ({
            let batch = before.active->Some_0.batch;
            let earlier = backend.history();
            let later = backend_after.history();
            let moved = BackendCall::Moved { updates: frame, ok };
            &&& batch.start_ns <= now_ns < batch.start_ns + batch.duration_ns ==> {
                &&& after == before
                &&& later == earlier.push(moved).push(BackendCall::Paced)
            }
            &&& now_ns >= batch.start_ns + batch.duration_ns ==> {
                &&& later.len() > earlier.len()
                &&& later.take(earlier.len() as int) == earlier
                &&& later[earlier.len() as int] == moved
                &&& forall|j: int| earlier.len() < j < later.len() ==> #[trigger] later[j] is Asked
                &&& after.active is Some ==> after.active->Some_0.batch.start_ns == now_ns
                &&& after.active is None ==> after.queue@.len() == 0
            }
        }),
{
    let batch = before.active->Some_0.batch;
    let earlier = backend.history();
    let later = backend_after.history();
    if now_ns >= batch.start_ns + batch.duration_ns {
        assert(batch.progress_at(now_ns).complete());
        let passed = choose|passed: Seq<Look>|
            {
                &&& #[trigger] WorkerState::next_started(
                    before.queue@,
                    after,
                    backend,
                    now_ns,
                    sample,
                    passed,
                )
                &&& later == earlier.push(BackendCall::Moved { updates: frame, ok }) + all_questions(
                    before.queue@,
                    passed,
                )
            };
        lemma_all_questions_move_nothing(before.queue@, passed);
        let rest = all_questions(before.queue@, passed);
        assert(later.take(earlier.len() as int) =~= earlier);
        assert forall|j: int| earlier.len() < j < later.len() implies #[trigger] later[j] is Asked by {
            assert(later[j] == rest[j - earlier.len() - 1]);
        }
    }
}

/// What each command does. To stop forgets what plays and what waits, and moves nothing. A new
/// configuration changes neither. A request that is to be dropped leaves everything as it is while
/// something plays, and one that is to wait comes last.
pub proof fn commands_do_what_they_say<
    B: WindowBackend,
    S: Fn(WindowTween, AnimatorConfig, Progress) -> Rect,
>(
    before: WorkerState,
    after: WorkerState,
    backend: B,
    backend_after: B,
    cmd: AnimatorCmd,
    now_ns: u64,
    sample: S,
)
    requires
        handled(before, after, backend, backend_after, cmd, now_ns, sample),
    ensures
        cmd is Cancel ==> after.active is None && after.queue@.len() == 0 && after.config
            == before.config && backend_after == backend,
        cmd is Shutdown ==> after == before && backend_after == backend,
        cmd is UpdateConfig ==> after.active == before.active && after.queue == before.queue
            && after.config == cmd->UpdateConfig_0 && backend_after == backend,
        cmd is Animate && before.active is Some ==> ({
            let policy = cmd->Animate_config.interrupt_policy;
            &&& policy is DropNew ==> after == before && backend_after == backend
            &&& policy is QueueAfterCurrent ==> {
                &&& after.active == before.active
                &&& after.config == before.config
                &&& after.queue@.len() == before.queue@.len() + 1
                &&& after.queue@.drop_last() == before.queue@
                &&& after.queue@.last().targets@ == cmd->Animate_targets@
                &&& after.queue@.last().config == cmd->Animate_config
                &&& backend_after == backend
            }
        }),
{
    if cmd is Animate && before.active is Some
        && cmd->Animate_config.interrupt_policy is QueueAfterCurrent {
        assert(after.queue@.drop_last() =~= before.queue@);
    }
}

/// A request plays at once where nothing plays, whatever its policy, and where it is to take over.
/// What waits goes on waiting. It plays from this moment, for as long as its own configuration
/// says, every movement leads from where its window is to the target for it, and where there is no
/// movement everything stays as it was.
pub proof fn requests_play_at_once_or_take_over<
    B: WindowBackend,
    S: Fn(WindowTween, AnimatorConfig, Progress) -> Rect,
>(
    before: WorkerState,
    after: WorkerState,
    backend: B,
    backend_after: B,
    targets: Vec<WindowTarget>,
    config: AnimatorConfig,
    now_ns: u64,
    sample: S,
)
    requires
        handled(
            before,
            after,
            backend,
            backend_after,
            AnimatorCmd::Animate { targets, config },
            now_ns,
            sample,
        ),
        before.active is None || config.interrupt_policy is RetargetFromCurrent,
    ensures
        after.queue == before.queue,
        exists|answers: Seq<Option<Result<Rect, AnimationError>>>, from: Seq<(WindowRef, Rect)>|
            {
                &&& #[trigger] answers_allowed(backend, targets@, answers)
                &&& #[trigger] start_rects(
                    before.active,
                    now_ns,
                    sample,
                    targets@,
                    answers,
                    from,
                )
                &&& backend_after.history() == backend.history() + questions(targets@, answers)
                &&& if tweens_for(targets@, from, config.size_animation).len() == 0 {
                    after.active == before.active && after.config == before.config
                } else {
                    &&& after.active is Some
                    &&& after.config == config
                    &&& after.active->Some_0.config == config
                    &&& after.active->Some_0.batch.start_ns == now_ns
                    &&& after.active->Some_0.batch.duration_ns == config.duration_ns
                    &&& after.active->Some_0.batch.tweens@ == tweens_for(
                        targets@,
                        from,
                        config.size_animation,
                    )
                }
            },
{
    let (answers, from) = choose|
        answers: Seq<Option<Result<Rect, AnimationError>>>,
        from: Seq<(WindowRef, Rect)>,
    | #[trigger]
        started_with(
            before,
            after,
            backend,
            backend_after,
            targets@,
            config,
            now_ns,
            sample,
            answers,
            from,
        );
    assert(answers_allowed(backend, targets@, answers) && start_rects(
        before.active,
        now_ns,
        sample,
        targets@,
        answers,
        from,
    ));
}

/// Where nothing plays, a window that the backend reports elsewhere than at its target is moved
/// there, from where the backend reports it.
pub proof fn windows_move_from_where_they_are_reported<
    B: WindowBackend,
    S: Fn(WindowTween, AnimatorConfig, Progress) -> Rect,
>(
    before: WorkerState,
    after: WorkerState,
    backend: B,
    backend_after: B,
    targets: Vec<WindowTarget>,
    config: AnimatorConfig,
    now_ns: u64,
    sample: S,
    t: int,
    reported: Rect,
)
    requires
        handled(
            before,
            after,
            backend,
            backend_after,
            AnimatorCmd::Animate { targets, config },
            now_ns,
            sample,
        ),
        before.active is None,
        0 <= t < targets@.len(),
        forall|answer: Option<Rect>| #[trigger]
            backend.may_answer(targets@[t].window_ref, answer) ==> answer == Some(reported),
        reported != (Rect {
            x: targets@[t].final_position.x,
            y: targets@[t].final_position.y,
            w: targets@[t].final_size.x,
            h: targets@[t].final_size.y,
        }),
    ensures
        after.active is Some,
        exists|k: int|
            {
                &&& 0 <= k < after.active->Some_0.batch.tweens@.len()
                &&& (#[trigger] after.active->Some_0.batch.tweens@[k]).window_ref
                    == targets@[t].window_ref
                &&& after.active->Some_0.batch.tweens@[k].from_rect == reported
                &&& after.active->Some_0.batch.tweens@[k].to_rect.x == targets@[t].final_position.x
                &&& after.active->Some_0.batch.tweens@[k].to_rect.y == targets@[t].final_position.y
                &&& after.active->Some_0.batch.tweens@[k].to_rect.w == targets@[t].final_size.x
                &&& after.active->Some_0.batch.tweens@[k].to_rect.h == targets@[t].final_size.y
            },
{
    let (answers, from) = choose|
        answers: Seq<Option<Result<Rect, AnimationError>>>,
        from: Seq<(WindowRef, Rect)>,
    | #[trigger]
        started_with(
            before,
            after,
            backend,
            backend_after,
            targets@,
            config,
            now_ns,
            sample,
            answers,
            from,
        );
    assert(from[t].0 == targets@[t].window_ref);
    let j = lemma_first_listed(from, t);
    assert(from[j].0 == targets@[j].window_ref);
    assert(answers[j] is Some);
    assert(backend.may_answer(targets@[t].window_ref, answer_rect(answers[j]->Some_0)));
    assert(first_rect(from, targets@[t].window_ref) == Some(reported));
    lemma_tween_for_each_difference(targets@, from, config.size_animation, t);
    let tweens = tweens_for(targets@, from, config.size_animation);
    let k = choose|k: int|
        0 <= k < tweens.len() && (#[trigger] tweens[k]).window_ref == targets@[t].window_ref
            && tweens[k].to_rect == targets@[t].rect();
    crate::animation::batch::tweens_lead_from_the_listed_rects_to_the_targets(
        targets@,
        from,
        config.size_animation,
        k,
    );
    assert(after.active->Some_0.batch.tweens@[k] == tweens[k]);
}

/// Identifiers count up by one.
pub proof fn identifiers_count_up(id: u64)
    ensures
        id < u64::MAX ==> following_id(id) == id + 1,
        following_id(u64::MAX) == 0,
{
}

} // verus!
