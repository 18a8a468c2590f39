//! One animation run: its windows, its time span, and how a run is put together.
use crate::animation::config::{AnimatorConfig, SizeAnimation};
use crate::animation::interpolation::is_noop;
use crate::animation::types::{Rect, WindowRef, WindowTarget};
use vstd::prelude::*;

verus! {

/// The movement of one window.
#[derive(Debug, Clone, Copy, PartialEq, Eq, Structural)]
pub struct WindowTween {
    /// The window.
    pub window_ref: WindowRef,
    /// Geometry at the start.
    pub from_rect: Rect,
    /// Geometry at the end.
    pub to_rect: Rect,
    /// Whether the size is left alone, because it does not change and the configuration
    /// says so.
    pub size_skip: bool,
}

/// How far an animation is: `elapsed` out of `total`, never more than all of it.
#[derive(Debug, Clone, Copy, PartialEq, Eq, Structural)]
pub struct Progress {
    /// Part that has passed.
    pub elapsed: u64,
    /// The whole, never zero.
    pub total: u64,
}

impl Progress {
    /// Whether this is a share of something.
    pub open spec fn well_formed(self) -> bool {
        0 < self.total && self.elapsed <= self.total
    }

    /// Whether the end is reached.
    pub open spec fn complete(self) -> bool {
        self.elapsed == self.total
    }

    /// Whether the end is reached.
    pub fn is_complete(&self) -> (res: bool)
        ensures
            res == self.complete(),
    {
        self.elapsed == self.total
    }
}

/// An animation run.
#[derive(Debug)]
pub struct AnimationBatch {
    /// When it started, in nanoseconds on the clock of the program.
    pub start_ns: u64,
    /// How long it takes, in nanoseconds.
    pub duration_ns: u64,
    /// The windows in it.
    pub tweens: Vec<WindowTween>,
}

impl AnimationBatch {
    /// How far the run is at a time. A run without duration is complete from the start.
    pub open spec fn progress_at(&self, now_ns: u64) -> Progress {
        if self.duration_ns == 0 {
            Progress { elapsed: 1, total: 1 }
        } else {
            Progress {
                elapsed: if now_ns <= self.start_ns {
                    0
                } else if now_ns - self.start_ns >= self.duration_ns {
                    self.duration_ns
                } else {
                    (now_ns - self.start_ns) as u64
                },
                total: self.duration_ns,
            }
        }
    }

    /// A run that starts now.
    pub fn new(tweens: Vec<WindowTween>, duration_ns: u64, now_ns: u64) -> (res: Self)
        ensures
            res == (AnimationBatch { start_ns: now_ns, duration_ns, tweens }),
    {
        Self { start_ns: now_ns, duration_ns, tweens }
    }

    /// How far the run is.
    pub fn progress(&self, now_ns: u64) -> (res: Progress)
        ensures
            res == self.progress_at(now_ns),
            res.well_formed(),
    {
        if self.duration_ns == 0 {
            return Progress { elapsed: 1, total: 1 };
        }
        let elapsed: u64 = if now_ns <= self.start_ns {
            0
        } else if now_ns - self.start_ns >= self.duration_ns {
            self.duration_ns
        } else {
            now_ns - self.start_ns
        };
        Progress { elapsed, total: self.duration_ns }
    }
}

/// Time only moves an animation forward, and once complete it stays so.
pub proof fn progress_never_goes_back(b: AnimationBatch, earlier: u64, later: u64)
    requires
        earlier <= later,
    ensures
        b.progress_at(earlier).total == b.progress_at(later).total,
        b.progress_at(earlier).elapsed <= b.progress_at(later).elapsed,
        b.progress_at(earlier).complete() ==> b.progress_at(later).complete(),
{
}

/// While a run is under way its progress is exactly the time that has passed since its start, out
/// of its duration. Before its start nothing has passed, and after its end all of it has.
pub proof fn progress_is_the_time_that_has_passed(b: AnimationBatch, now: u64)
    requires
        b.duration_ns > 0,
    ensures
        b.progress_at(now).total == b.duration_ns,
        b.start_ns <= now <= b.start_ns + b.duration_ns ==> b.progress_at(now).elapsed == now
            - b.start_ns,
        now < b.start_ns ==> b.progress_at(now).elapsed == 0,
        now > b.start_ns + b.duration_ns ==> b.progress_at(now).elapsed == b.duration_ns,
{
}

/// Between two moments of a run its progress grows by the time between them.
pub proof fn progress_grows_with_the_clock(b: AnimationBatch, earlier: u64, later: u64)
    requires
        b.duration_ns > 0,
        b.start_ns <= earlier <= later <= b.start_ns + b.duration_ns,
    ensures
        b.progress_at(later).elapsed - b.progress_at(earlier).elapsed == later - earlier,
{
}

/// The end is reached where all of it has passed.
pub proof fn complete_means_all_has_passed(p: Progress)
    ensures
        p.complete() <==> p.elapsed == p.total,
{
}

/// An animation is complete exactly when its duration has passed.
pub proof fn complete_once_the_duration_has_passed(b: AnimationBatch, now: u64)
    requires
        b.start_ns <= now,
    ensures
        b.progress_at(now).complete() <==> now - b.start_ns >= b.duration_ns,
{
}

/// The first rectangle listed for a window.
pub open spec fn first_rect(from_rects: Seq<(WindowRef, Rect)>, window: WindowRef) -> Option<Rect>
    decreases from_rects.len(),
{
    if from_rects.len() == 0 {
        None
    } else if from_rects[0].0 == window {
        Some(from_rects[0].1)
    } else {
        first_rect(from_rects.drop_first(), window)
    }
}

/// The movement that a target asks for; none where the window's current geometry is not
/// known or is the target already.
pub open spec fn tween_for(
    target: WindowTarget,
    from_rects: Seq<(WindowRef, Rect)>,
    size_animation: SizeAnimation,
) -> Option<WindowTween> {
    match first_rect(from_rects, target.window_ref) {
        None => None,
        Some(from_rect) => if from_rect == target.rect() {
            None
        } else {
            Some(
                WindowTween {
                    window_ref: target.window_ref,
                    from_rect,
                    to_rect: target.rect(),
                    size_skip: size_animation == SizeAnimation::DisabledIfUnchanged && from_rect.w
                        == target.rect().w && from_rect.h == target.rect().h,
                },
            )
        },
    }
}

/// The movements that a list of targets asks for, in its order.
pub open spec fn tweens_for(
    targets: Seq<WindowTarget>,
    from_rects: Seq<(WindowRef, Rect)>,
    size_animation: SizeAnimation,
) -> Seq<WindowTween>
    decreases targets.len(),
{
    if targets.len() == 0 {
        Seq::empty()
    } else {
        let earlier = tweens_for(targets.drop_last(), from_rects, size_animation);
        match tween_for(targets.last(), from_rects, size_animation) {
            Some(tween) => earlier.push(tween),
            None => earlier,
        }
    }
}

fn find_rect(from_rects: &[(WindowRef, Rect)], window: WindowRef) -> (res: Option<Rect>)
    ensures
        res == first_rect(from_rects@, window),
{
    let mut i: usize = 0;
    assert(from_rects@.skip(0) =~= from_rects@);
    while i < from_rects.len()
        invariant
            i <= from_rects@.len(),
            first_rect(from_rects@, window) == first_rect(from_rects@.skip(i as int), window),
        decreases from_rects@.len() - i,
    {
        proof {
            assert(from_rects@.skip(i as int).drop_first() =~= from_rects@.skip(i + 1));
        }
        if from_rects[i].0 == window {
            return Some(from_rects[i].1);
        }
        i = i + 1;
    }
    None
}

/// Builds the movements for a list of targets from the current geometry of their windows.
///
/// Windows that are already at their target, or whose geometry is not listed, are left out.
pub fn build_tweens(
    targets: &[WindowTarget],
    from_rects: &[(WindowRef, Rect)],
    config: &AnimatorConfig,
) -> (res: Vec<WindowTween>)
    ensures
        res@ == tweens_for(targets@, from_rects@, config.size_animation),
{
    let mut tweens: Vec<WindowTween> = Vec::new();
    let mut i: usize = 0;
    while i < targets.len()
        invariant
            i <= targets@.len(),
            tweens@ == tweens_for(targets@.take(i as int), from_rects@, config.size_animation),
        decreases targets@.len() - i,
    {
        let target: WindowTarget = targets[i];
        proof {
            assert(targets@.take(i + 1).drop_last() =~= targets@.take(i as int));
            assert(targets@.take(i + 1).last() == target);
        }
        if let Some(from_rect) = find_rect(from_rects, target.window_ref) {
            let to_rect: Rect = target.as_rect();
            if !is_noop(&from_rect, &to_rect) {
                let size_skip: bool = config.size_animation == SizeAnimation::DisabledIfUnchanged
                    && from_rect.w == to_rect.w && from_rect.h == to_rect.h;
                tweens.push(
                    WindowTween { window_ref: target.window_ref, from_rect, to_rect, size_skip },
                );
            }
        }
        i = i + 1;
    }
    assert(targets@.take(i as int) =~= targets@);
    tweens
}

/// Every movement leads somewhere, comes from the listed geometry of its window, and goes
/// where one of the targets says.
pub proof fn tweens_lead_from_the_listed_rects_to_the_targets(
    targets: Seq<WindowTarget>,
    from_rects: Seq<(WindowRef, Rect)>,
    size_animation: SizeAnimation,
    i: int,
)
    requires
        0 <= i < tweens_for(targets, from_rects, size_animation).len(),
    ensures
        ({
            let tween = tweens_for(targets, from_rects, size_animation)[i];
            &&& tween.from_rect != tween.to_rect
            &&& first_rect(from_rects, tween.window_ref) == Some(tween.from_rect)
            &&& exists|j: int|
                0 <= j < targets.len() && #[trigger] targets[j].window_ref == tween.window_ref
                    && targets[j].rect() == tween.to_rect
            &&& tween.size_skip ==> tween.from_rect.w == tween.to_rect.w && tween.from_rect.h
                == tween.to_rect.h
        }),
    decreases targets.len(),
{
    let earlier = tweens_for(targets.drop_last(), from_rects, size_animation);
    if i < earlier.len() {
        tweens_lead_from_the_listed_rects_to_the_targets(
            targets.drop_last(),
            from_rects,
            size_animation,
            i,
        );
        let tween = earlier[i];
        let j = choose|j: int|
            0 <= j < targets.len() - 1 && #[trigger] targets.drop_last()[j].window_ref
                == tween.window_ref && targets.drop_last()[j].rect() == tween.to_rect;
        assert(targets[j].window_ref == tween.window_ref);
    } else {
        let j = targets.len() - 1;
        assert(targets[j].window_ref == tweens_for(targets, from_rects, size_animation)[i].window_ref);
    }
}

/// Where every window is at its target already, there is nothing to animate.
pub proof fn nothing_to_animate_at_the_targets(
    targets: Seq<WindowTarget>,
    from_rects: Seq<(WindowRef, Rect)>,
    size_animation: SizeAnimation,
)
    requires
        forall|i: int|
            0 <= i < targets.len() ==> first_rect(from_rects, (#[trigger] targets[i]).window_ref)
                == Some(targets[i].rect()),
    ensures
        tweens_for(targets, from_rects, size_animation).len() == 0,
    decreases targets.len(),
{
    if targets.len() > 0 {
        assert(targets[targets.len() - 1] == targets.last());
        assert forall|i: int| 0 <= i < targets.drop_last().len() implies first_rect(
            from_rects,
            (#[trigger] targets.drop_last()[i]).window_ref,
        ) == Some(targets.drop_last()[i].rect()) by {
            assert(targets[i] == targets.drop_last()[i]);
        }
        nothing_to_animate_at_the_targets(targets.drop_last(), from_rects, size_animation);
    }
}

/// The geometry that is found for a window is the first one that is listed for it.
pub proof fn first_listed_geometry_counts(from_rects: Seq<(WindowRef, Rect)>, window: WindowRef)
    ensures
        match first_rect(from_rects, window) {
            Some(rect) => exists|i: int|
                0 <= i < from_rects.len() && #[trigger] from_rects[i] == (window, rect) && forall|
                    j: int,
                |
                    0 <= j < i ==> (#[trigger] from_rects[j]).0 != window,
            None => forall|i: int|
                0 <= i < from_rects.len() ==> (#[trigger] from_rects[i]).0 != window,
        },
    decreases from_rects.len(),
{
    if from_rects.len() > 0 {
        let rest = from_rects.drop_first();
        first_listed_geometry_counts(rest, window);
        if from_rects[0].0 == window {
            assert(from_rects[0] == (window, from_rects[0].1));
        } else {
            match first_rect(rest, window) {
                Some(rect) => {
                    let i = choose|i: int|
                        0 <= i < rest.len() && #[trigger] rest[i] == (window, rect) && forall|j: int|
                            0 <= j < i ==> (#[trigger] rest[j]).0 != window;
                    assert(from_rects[i + 1] == (window, rect));
                    assert forall|j: int| 0 <= j < i + 1 implies (
                    #[trigger] from_rects[j]).0 != window by {
                        if j > 0 {
                            assert(rest[j - 1] == from_rects[j]);
                        }
                    }
                },
                None => {
                    assert forall|i: int| 0 <= i < from_rects.len() implies (
                    #[trigger] from_rects[i]).0 != window by {
                        if i > 0 {
                            assert(rest[i - 1] == from_rects[i]);
                        }
                    }
                },
            }
        }
    }
}

/// What a target asks of its window: to move from where it is to the position and size of the
/// target. Nothing is asked where it is there already, or where it is not known where it is. The
/// size is left alone only where the configuration says so and it does not change.
pub proof fn targets_ask_for_a_movement_to_them(
    target: WindowTarget,
    from_rects: Seq<(WindowRef, Rect)>,
    size_animation: SizeAnimation,
)
    ensures
        ({
            let tween = tween_for(target, from_rects, size_animation);
            match first_rect(from_rects, target.window_ref) {
                None => tween is None,
                Some(from) => {
                    let there = from.x == target.final_position.x && from.y
                        == target.final_position.y && from.w == target.final_size.x && from.h
                        == target.final_size.y;
                    &&& tween is None <==> there
                    &&& tween is Some ==> {
                        &&& tween->Some_0.window_ref == target.window_ref
                        &&& tween->Some_0.from_rect == from
                        &&& tween->Some_0.to_rect.x == target.final_position.x
                        &&& tween->Some_0.to_rect.y == target.final_position.y
                        &&& tween->Some_0.to_rect.w == target.final_size.x
                        &&& tween->Some_0.to_rect.h == target.final_size.y
                        &&& tween->Some_0.size_skip <==> size_animation
                            == SizeAnimation::DisabledIfUnchanged && from.w == target.final_size.x
                            && from.h == target.final_size.y
                    }
                },
            }
        }),
{
}

/// The movements of a list of targets are those of its parts, one after the other: each target
/// adds its own movement, and the order is kept.
pub proof fn movements_keep_the_order_of_the_targets(
    first: Seq<WindowTarget>,
    second: Seq<WindowTarget>,
    from_rects: Seq<(WindowRef, Rect)>,
    size_animation: SizeAnimation,
)
    ensures
        tweens_for(first + second, from_rects, size_animation) == tweens_for(
            first,
            from_rects,
            size_animation,
        ) + tweens_for(second, from_rects, size_animation),
        first.len() == 1 ==> tweens_for(first, from_rects, size_animation) == match tween_for(
            first[0],
            from_rects,
            size_animation,
        ) {
            Some(tween) => seq![tween],
            None => Seq::<WindowTween>::empty(),
        },
    decreases second.len(),
{
    if second.len() == 0 {
        assert(first + second =~= first);
        assert(tweens_for(first, from_rects, size_animation) + Seq::<WindowTween>::empty()
            =~= tweens_for(first, from_rects, size_animation));
    } else {
        assert((first + second).drop_last() =~= first + second.drop_last());
        assert((first + second).last() == second.last());
        movements_keep_the_order_of_the_targets(
            first,
            second.drop_last(),
            from_rects,
            size_animation,
        );
        assert(tweens_for(first + second, from_rects, size_animation) =~= tweens_for(
            first,
            from_rects,
            size_animation,
        ) + tweens_for(second, from_rects, size_animation));
    }
    if first.len() == 1 {
        assert(first.drop_last() =~= Seq::<WindowTarget>::empty());
        assert(tweens_for(first.drop_last(), from_rects, size_animation) =~= Seq::empty());
        assert(tweens_for(first, from_rects, size_animation) =~= match tween_for(
            first[0],
            from_rects,
            size_animation,
        ) {
            Some(tween) => seq![tween],
            None => Seq::<WindowTween>::empty(),
        });
    }
}

} // verus!
