//! Which easing curve applies to which part of an animation.
use crate::animation::config::{PositionAnimation, SizeAnimation};
use crate::config::types::ConfigEasing;
use vstd::prelude::*;

verus! {

/// The curve of the position.
pub fn position_curve(style: &PositionAnimation) -> (res: ConfigEasing)
    ensures
        res == match *style {
            PositionAnimation::Linear => ConfigEasing::Linear,
            PositionAnimation::EaseInOut => ConfigEasing::EaseInOutCubic,
            PositionAnimation::EaseOutCubic => ConfigEasing::EaseOutCubic,
            PositionAnimation::EaseOutExpo => ConfigEasing::EaseOutExpo,
            PositionAnimation::EaseElastic => ConfigEasing::EaseOutElastic,
        },
{
    match style {
        PositionAnimation::Linear => ConfigEasing::Linear,
        PositionAnimation::EaseInOut => ConfigEasing::EaseInOutCubic,
        PositionAnimation::EaseOutCubic => ConfigEasing::EaseOutCubic,
        PositionAnimation::EaseOutExpo => ConfigEasing::EaseOutExpo,
        PositionAnimation::EaseElastic => ConfigEasing::EaseOutElastic,
    }
}

/// The curve of the size; none where the size stays and is not eased at all.
pub fn size_curve(style: &SizeAnimation, from_size_matches: bool) -> (res: Option<ConfigEasing>)
    ensures
        res == match *style {
            SizeAnimation::Linear => Some(ConfigEasing::Linear),
            SizeAnimation::EaseInOut => Some(ConfigEasing::EaseInOutCubic),
            SizeAnimation::DisabledIfUnchanged => if from_size_matches {
                None
            } else {
                Some(ConfigEasing::Linear)
            },
        },
{
    match style {
        SizeAnimation::Linear => Some(ConfigEasing::Linear),
        SizeAnimation::EaseInOut => Some(ConfigEasing::EaseInOutCubic),
        SizeAnimation::DisabledIfUnchanged => {
            if from_size_matches {
                None
            } else {
                Some(ConfigEasing::Linear)
            }
        },
    }
}

} // verus!
