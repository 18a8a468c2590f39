//! Types shared by every subsystem.
pub mod error;
pub mod types;

pub use error::{FlowError, FlowResult};
pub use types::{Direction, InvisibleBounds, Point, Rect, Size, WindowId};
