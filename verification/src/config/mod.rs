//! Configuration values and the rules on them.
pub mod color;
pub mod dirs;
pub mod history;
pub mod lifecycle;
pub mod types;

pub use color::Color;
pub use types::{
    AnimationConfig, BorderConfig, ConfigEasing, DragConfig, EdgeScrollConfig, FloatingConfig,
    FlowConfig, FocusConfig, HoverConfig, LoadoutConfig, MatchRule, MinimizeRestore,
    MinimizeRestoreStrategy, Padding, WindowAction, WindowRule, WindowRulesConfig,
};
