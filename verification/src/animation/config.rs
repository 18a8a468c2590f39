//! Configuration of the animator.
use vstd::prelude::*;

verus! {

/// Full configuration of an animator. Times are in nanoseconds.
#[derive(Debug, Clone, Copy, PartialEq, Eq, Structural)]
pub struct AnimatorConfig {
    /// Duration of one animation.
    pub duration_ns: u64,
    /// Easing of the position.
    pub position_animation: PositionAnimation,
    /// Easing of the size.
    pub size_animation: SizeAnimation,
    /// What a request does to an animation that is playing.
    pub interrupt_policy: InterruptPolicy,
    /// How frames are paced.
    pub frame_pacing: FramePacing,
    /// A longer time between two frames counts as a stutter.
    pub jank_threshold_ns: u64,
}

impl Default for AnimatorConfig {
    /// A quarter of a second, smooth movement, linear resizing, and requests that take over
    /// from where the windows are.
    fn default() -> (res: Self)
        ensures
            res == (AnimatorConfig {
                duration_ns: 250_000_000,
                position_animation: PositionAnimation::EaseInOut,
                size_animation: SizeAnimation::Linear,
                interrupt_policy: InterruptPolicy::RetargetFromCurrent,
                frame_pacing: FramePacing::DwmFlush,
                jank_threshold_ns: 25_000_000,
            }),
    {
        Self {
            duration_ns: 250_000_000,
            position_animation: PositionAnimation::default(),
            size_animation: SizeAnimation::default(),
            interrupt_policy: InterruptPolicy::default(),
            frame_pacing: FramePacing::default(),
            jank_threshold_ns: 25_000_000,
        }
    }
}

/// Easing curve of the position.
#[derive(Debug, Clone, Copy, PartialEq, Eq, Structural)]
pub enum PositionAnimation {
    /// Constant velocity.
    Linear,
    /// Smooth departure and arrival.
    EaseInOut,
    /// Fast departure, slow arrival.
    EaseOutCubic,
    /// Immediate departure, very slow arrival.
    EaseOutExpo,
    /// Overshoots slightly, then snaps to the target; best for moves without resizing.
    EaseElastic,
}

impl Default for PositionAnimation {
    fn default() -> (res: Self)
        ensures
            res == PositionAnimation::EaseInOut,
    {
        PositionAnimation::EaseInOut
    }
}

/// Easing curve of the size.
#[derive(Debug, Clone, Copy, PartialEq, Eq, Structural)]
pub enum SizeAnimation {
    /// Constant velocity.
    Linear,
    /// Smooth start and end.
    EaseInOut,
    /// No easing at all where the size does not change.
    DisabledIfUnchanged,
}

impl Default for SizeAnimation {
    fn default() -> (res: Self)
        ensures
            res == SizeAnimation::Linear,
    {
        SizeAnimation::Linear
    }
}

/// What a request does to an animation that is playing.
#[derive(Debug, Clone, Copy, PartialEq, Eq, Structural)]
pub enum InterruptPolicy {
    /// Take over from where the windows are at that moment.
    RetargetFromCurrent,
    /// Wait until the animation is over.
    QueueAfterCurrent,
    /// Discard the request.
    DropNew,
}

impl Default for InterruptPolicy {
    fn default() -> (res: Self)
        ensures
            res == InterruptPolicy::RetargetFromCurrent,
    {
        InterruptPolicy::RetargetFromCurrent
    }
}

/// How frames are paced.
#[derive(Debug, Clone, Copy, PartialEq, Eq, Structural)]
pub enum FramePacing {
    /// Wait for the compositor after each frame.
    DwmFlush,
}

impl Default for FramePacing {
    fn default() -> (res: Self)
        ensures
            res == FramePacing::DwmFlush,
    {
        FramePacing::DwmFlush
    }
}

} // verus!
