//! Style values of a border.
use crate::config::Color;
use vstd::prelude::*;

verus! {

/// Per-window border styling.
#[derive(Debug, Clone, Copy, PartialEq, Eq, Structural)]
pub struct BorderStyle {
    /// Border ring colour.
    pub color: Color,
    /// Border ring thickness in pixels, the same on all four sides.
    pub width_px: u32,
    /// Corner rounding preference.
    pub corner_preference: CornerPreference,
}

impl BorderStyle {
    /// Constructs a style from the three independent values.
    #[must_use]
    pub fn new(color: Color, width_px: u32, corner_preference: CornerPreference) -> (res: Self)
        ensures
            res == (BorderStyle { color, width_px, corner_preference }),
    {
        Self { color, width_px, corner_preference }
    }
}

/// Corner shape preference for a border.
#[derive(Debug, Clone, Copy, PartialEq, Eq, Structural)]
pub enum CornerPreference {
    /// The system default, which is rounded.
    Default,
    /// Square corners.
    Square,
    /// Rounded corners.
    Rounded,
    /// Small rounded corners.
    RoundedSmall,
}

impl Default for CornerPreference {
    /// The system default.
    fn default() -> (res: Self)
        ensures
            res == CornerPreference::Default,
    {
        CornerPreference::Default
    }
}

} // verus!
