//! Coloured window borders.
//!
//! Each managed window can have a border: a click-through overlay that shows a coloured
//! ring around the visible content of the window.
use crate::config::BorderConfig;
use vstd::prelude::*;

pub mod arcs;
pub mod border;
pub mod manager;
pub mod overlay;
pub mod pixel;
pub mod raster;
pub mod style;
pub mod surface;

pub use border::Border;
pub use manager::BorderManager;
pub use overlay::BorderOverlay;
pub use style::{BorderStyle, CornerPreference};

verus! {

/// State of a window as far as its border colour goes.
#[derive(Debug, Clone, Copy, PartialEq, Eq, Structural)]
pub enum BorderState {
    /// The focused window.
    Focused,
    /// A tiled window without focus.
    Unfocused,
    /// A floating window.
    Floating,
}

/// The border style that the settings give to a window in a state.
pub open spec fn state_style(cfg: BorderConfig, state: BorderState) -> BorderStyle {
    BorderStyle {
        color: match state {
            BorderState::Focused => cfg.focused_color,
            BorderState::Unfocused => cfg.unfocused_color,
            BorderState::Floating => cfg.floating_color,
        },
        width_px: cfg.thickness,
        corner_preference: CornerPreference::Default,
    }
}

/// Each state has its own colour setting: a change of the colour for one state changes the border
/// of windows in that state, to that colour, and of no others. All have the same thickness and the
/// default corners.
pub proof fn each_state_has_its_own_color(
    cfg: BorderConfig,
    other: BorderConfig,
    state: BorderState,
    color: crate::config::Color,
)
    requires
        state is Focused ==> other == (BorderConfig { focused_color: color, ..cfg }),
        state is Unfocused ==> other == (BorderConfig { unfocused_color: color, ..cfg }),
        state is Floating ==> other == (BorderConfig { floating_color: color, ..cfg }),
    ensures
        state_style(other, state).color == color,
        forall|s: BorderState| s != state ==> #[trigger] state_style(other, s) == state_style(cfg, s),
        state_style(cfg, state).width_px == cfg.thickness,
        state_style(cfg, state).corner_preference == CornerPreference::Default,
{
}

/// The border style that the settings give to a window in a state.
#[must_use]
pub fn style_for_state(cfg: &BorderConfig, state: BorderState) -> (res: BorderStyle)
    ensures
        res == state_style(*cfg, state),
{
    let color = match state {
        BorderState::Focused => cfg.focused_color,
        BorderState::Unfocused => cfg.unfocused_color,
        BorderState::Floating => cfg.floating_color,
    };
    BorderStyle { color, width_px: cfg.thickness, corner_preference: CornerPreference::default() }
}

} // verus!
