//! Types shared by the animation modules.
use crate::text::concat;
use vstd::prelude::*;
use vstd::string::*;

verus! {

/// A 2D integer vector, for screen positions and sizes.
#[derive(Debug, Clone, Copy, PartialEq, Eq, Hash, Structural)]
pub struct IVec2 {
    /// Horizontal component.
    pub x: i32,
    /// Vertical component.
    pub y: i32,
}

impl IVec2 {
    /// Constructs a vector.
    pub fn new(x: i32, y: i32) -> (res: Self)
        ensures
            res == (IVec2 { x, y }),
    {
        Self { x, y }
    }
}

impl Default for IVec2 {
    /// The zero vector.
    fn default() -> (res: Self)
        ensures
            res == (IVec2 { x: 0, y: 0 }),
    {
        Self { x: 0, y: 0 }
    }
}

/// Screen rectangle as origin and dimensions.
#[derive(Debug, Clone, Copy, PartialEq, Eq, Hash, Structural)]
pub struct Rect {
    /// Left edge.
    pub x: i32,
    /// Top edge.
    pub y: i32,
    /// Width in pixels.
    pub w: i32,
    /// Height in pixels.
    pub h: i32,
}

impl Rect {
    /// Constructs a rectangle.
    pub fn new(x: i32, y: i32, w: i32, h: i32) -> (res: Self)
        ensures
            res == (Rect { x, y, w, h }),
    {
        Self { x, y, w, h }
    }

    /// The position.
    pub fn position(self) -> (res: IVec2)
        ensures
            res == (IVec2 { x: self.x, y: self.y }),
    {
        IVec2::new(self.x, self.y)
    }

    /// The size.
    pub fn size(self) -> (res: IVec2)
        ensures
            res == (IVec2 { x: self.w, y: self.h }),
    {
        IVec2::new(self.w, self.h)
    }

    /// Whether width and height are both non-negative.
    pub fn is_valid(self) -> (res: bool)
        ensures
            res == (self.w >= 0 && self.h >= 0),
    {
        self.w >= 0 && self.h >= 0
    }
}

impl Default for Rect {
    /// The empty rectangle at the origin.
    fn default() -> (res: Self)
        ensures
            res == (Rect { x: 0, y: 0, w: 0, h: 0 }),
    {
        Self { x: 0, y: 0, w: 0, h: 0 }
    }
}

/// Opaque reference to a top-level window; on Windows the `HWND` value.
#[derive(Debug, Clone, Copy, PartialEq, Eq, Hash, Structural)]
pub struct WindowRef(pub isize);

/// Desired final geometry of one window.
#[derive(Debug, Clone, Copy, PartialEq, Eq, Structural)]
pub struct WindowTarget {
    /// The window to animate.
    pub window_ref: WindowRef,
    /// Top-left corner after the animation.
    pub final_position: IVec2,
    /// Size after the animation.
    pub final_size: IVec2,
}

impl WindowTarget {
    /// The final geometry as a rectangle.
    pub open spec fn rect(self) -> Rect {
        Rect {
            x: self.final_position.x,
            y: self.final_position.y,
            w: self.final_size.x,
            h: self.final_size.y,
        }
    }

    /// Constructs a target.
    pub fn new(window_ref: WindowRef, final_position: IVec2, final_size: IVec2) -> (res: Self)
        ensures
            res == (WindowTarget { window_ref, final_position, final_size }),
    {
        Self { window_ref, final_position, final_size }
    }

    /// The final geometry as a rectangle.
    pub fn as_rect(&self) -> (res: Rect)
        ensures
            res == self.rect(),
    {
        Rect::new(
            self.final_position.x,
            self.final_position.y,
            self.final_size.x,
            self.final_size.y,
        )
    }
}

/// A rectangle is determined by its position and size, and a target by the rectangle it
/// stands for.
pub proof fn target_keeps_position_and_size(window_ref: WindowRef, r: Rect)
    ensures
        (WindowTarget {
            window_ref,
            final_position: IVec2 { x: r.x, y: r.y },
            final_size: IVec2 { x: r.w, y: r.h },
        }).rect() == r,
{
}

/// Identifies an animation request.
#[derive(Debug, Clone, Copy, PartialEq, Eq, Hash, Structural)]
pub struct AnimationHandle(pub u64);

/// Errors of the animation engine.
#[derive(Debug, Clone, PartialEq)]
pub enum AnimationError {
    /// A call of the window system failed.
    Backend(String),
    /// The submitted batch contained no windows.
    EmptyBatch,
    /// The worker has exited.
    WorkerDead,
}

impl AnimationError {
    /// The text of an error.
    pub open spec fn text(&self) -> Seq<char> {
        match self {
            AnimationError::Backend(cause) => "backend error: "@ + cause@,
            AnimationError::EmptyBatch => "animation batch must contain at least one window"@,
            AnimationError::WorkerDead => "animator worker thread is not running"@,
        }
    }

    /// The text of an error.
    pub fn to_string(&self) -> (res: String)
        ensures
            res@ == self.text(),
    {
        match self {
            AnimationError::Backend(cause) => concat("backend error: ", cause.as_str()),
            AnimationError::EmptyBatch => "animation batch must contain at least one window".to_owned(),
            AnimationError::WorkerDead => "animator worker thread is not running".to_owned(),
        }
    }

    /// An error equal to this one.
    pub fn copied(&self) -> (res: Self)
        ensures
            res == *self,
    {
        match self {
            AnimationError::Backend(cause) => AnimationError::Backend(cause.clone()),
            AnimationError::EmptyBatch => AnimationError::EmptyBatch,
            AnimationError::WorkerDead => AnimationError::WorkerDead,
        }
    }
}

/// The rectangle of a target has its position and its size.
pub proof fn target_rect_has_position_and_size(target: WindowTarget)
    ensures
        target.rect().x == target.final_position.x,
        target.rect().y == target.final_position.y,
        target.rect().w == target.final_size.x,
        target.rect().h == target.final_size.y,
{
}

/// Each error has its own text; that of the window system ends with its cause.
pub proof fn animation_errors_in_words(cause: String)
    ensures
        AnimationError::Backend(cause).text() == "backend error: "@ + cause@,
        AnimationError::EmptyBatch.text() == "animation batch must contain at least one window"@,
        AnimationError::WorkerDead.text() == "animator worker thread is not running"@,
{
}

} // verus!
