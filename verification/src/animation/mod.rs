//! Animation of window geometry.
//!
//! The library decides what is animated from where to where, which request replaces or
//! waits for which, and when an animation is over. The program around it owns the clock,
//! the worker thread and the easing arithmetic.
pub mod animator;
pub mod backend;
pub mod batch;
pub mod config;
pub mod easing;
pub mod interpolation;
pub mod metrics;
pub mod types;

pub use animator::WindowAnimator;
pub use config::AnimatorConfig;
pub use metrics::{FrameMetrics, MetricsRecorder};
pub use types::Rect as AnimRect;
pub use types::{AnimationError, IVec2, WindowRef, WindowTarget};
