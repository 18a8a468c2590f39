//! Comparing the two ends of an animation.
use crate::animation::types::Rect;
use vstd::prelude::*;

verus! {

/// Whether there is nothing to animate.
pub fn is_noop(from: &Rect, to: &Rect) -> (res: bool)
    ensures
        res == (*from == *to),
{
    from.x == to.x && from.y == to.y && from.w == to.w && from.h == to.h
}

/// Whether the window only moves: both ends have the same size.
pub fn is_translation_only(from: &Rect, to: &Rect) -> (res: bool)
    ensures
        res == (from.w == to.w && from.h == to.h),
{
    from.w == to.w && from.h == to.h
}

/// Where there is nothing to animate, the window does not change its size either.
pub proof fn noop_is_translation_only(from: Rect, to: Rect)
    requires
        from == to,
    ensures
        from.w == to.w && from.h == to.h,
{
}

} // verus!
