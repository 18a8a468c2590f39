//! Geometry primitives, the direction enum and the window handle.
use vstd::prelude::*;

verus! {

/// Axis-parallel rectangle with integer pixel coordinates.
///
/// Touching rectangles do not overlap.
#[derive(Debug, Clone, Copy, PartialEq, Eq, Hash, Structural)]
pub struct Rect {
    /// Left edge.
    pub x: i32,
    /// Top edge.
    pub y: i32,
    /// Width in pixels.
    pub width: i32,
    /// Height in pixels.
    pub height: i32,
}

/// 2D size in integer pixels.
#[derive(Debug, Clone, Copy, PartialEq, Eq, Hash, Structural)]
pub struct Size {
    /// Width in pixels.
    pub w: i32,
    /// Height in pixels.
    pub h: i32,
}

/// 2D point with integer pixel coordinates.
#[derive(Debug, Clone, Copy, PartialEq, Eq, Hash, Structural)]
pub struct Point {
    /// Horizontal coordinate.
    pub x: i32,
    /// Vertical coordinate.
    pub y: i32,
}

/// Cardinal direction for focus, swap and resize operations.
///
/// `Left` and `Right` operate on columns, `Up` and `Down` on the rows within a
/// column.
#[derive(Debug, Clone, Copy, PartialEq, Eq, Hash, Structural)]
pub enum Direction {
    /// The column to the left.
    Left,
    /// The column to the right.
    Right,
    /// The row above.
    Up,
    /// The row below.
    Down,
}

/// Platform-independent opaque window handle; on Windows the `HWND` value.
#[derive(Debug, Clone, Copy, PartialEq, Eq, Hash, Structural)]
pub struct WindowId(pub isize);

impl Rect {
    /// Whether the right and bottom edges are representable.
    pub open spec fn fits(self) -> bool {
        &&& i32::MIN <= self.x + self.width <= i32::MAX
        &&& i32::MIN <= self.y + self.height <= i32::MAX
    }

    /// Whether the rectangle has no area.
    pub open spec fn spec_is_empty(self) -> bool {
        self.width <= 0 || self.height <= 0
    }

    /// Whether the open interiors of the two rectangles meet in both axes.
    pub open spec fn spec_overlaps(self, other: Rect) -> bool {
        &&& self.x < other.x + other.width
        &&& self.x + self.width > other.x
        &&& self.y < other.y + other.height
        &&& self.y + self.height > other.y
    }

    /// Returns `true` if this rectangle has zero area.
    #[must_use]
    pub fn is_empty(self) -> (res: bool)
        ensures
            res == self.spec_is_empty(),
    {
        self.width <= 0 || self.height <= 0
    }

    /// Returns the right edge coordinate.
    #[must_use]
    pub fn right(self) -> (res: i32)
        requires
            i32::MIN <= self.x + self.width <= i32::MAX,
        ensures
            res == self.x + self.width,
    {
        self.x + self.width
    }

    /// Returns the bottom edge coordinate.
    #[must_use]
    pub fn bottom(self) -> (res: i32)
        requires
            i32::MIN <= self.y + self.height <= i32::MAX,
        ensures
            res == self.y + self.height,
    {
        self.y + self.height
    }

    /// Returns `true` if this rectangle overlaps with `other`.
    #[must_use]
    pub fn overlaps(self, other: Rect) -> (res: bool)
        requires
            self.fits(),
            other.fits(),
        ensures
            res == self.spec_overlaps(other),
    {
        self.x < other.right() && self.right() > other.x && self.y < other.bottom()
            && self.bottom() > other.y
    }
}

/// Overlap does not depend on the order of the two rectangles.
pub proof fn overlap_is_symmetric(a: Rect, b: Rect)
    ensures
        a.spec_overlaps(b) == b.spec_overlaps(a),
{
}

/// A rectangle with area overlaps itself, and one without does not.
pub proof fn overlap_with_itself(a: Rect)
    ensures
        a.spec_overlaps(a) == !a.spec_is_empty(),
{
}

/// Rectangles that only touch at an edge do not overlap.
pub proof fn touching_rects_do_not_overlap(a: Rect, b: Rect)
    requires
        b.x == a.x + a.width || b.y == a.y + a.height,
    ensures
        !a.spec_overlaps(b),
        !b.spec_overlaps(a),
{
}

/// Two rectangles with area overlap exactly when some unit pixel lies in both.
pub proof fn overlap_means_a_shared_pixel(a: Rect, b: Rect)
    requires
        !a.spec_is_empty(),
        !b.spec_is_empty(),
    ensures
        a.spec_overlaps(b) <==> exists|px: int, py: int| #[trigger]
            holds_pixel(a, px, py) && #[trigger] holds_pixel(b, px, py),
{
    if a.spec_overlaps(b) {
        let px: int = if a.x >= b.x { a.x as int } else { b.x as int };
        let py: int = if a.y >= b.y { a.y as int } else { b.y as int };
        assert(holds_pixel(a, px, py) && holds_pixel(b, px, py));
    }
}

/// Whether the unit pixel with top-left corner `(px, py)` lies in `r`.
pub open spec fn holds_pixel(r: Rect, px: int, py: int) -> bool {
    r.x <= px < r.x + r.width && r.y <= py < r.y + r.height
}

/// Pixel offsets between the full window rect and the rect that is visible.
///
/// A top-level window can have invisible borders for shadows and resize
/// hit-testing; each field is the width of one of them. All are zero for a
/// window without invisible borders.
#[derive(Debug, Clone, Copy, PartialEq, Eq, Hash, Structural)]
pub struct InvisibleBounds {
    /// Invisible border width on the left edge.
    pub left: i32,
    /// Invisible border height on the top edge.
    pub top: i32,
    /// Invisible border width on the right edge.
    pub right: i32,
    /// Invisible border height on the bottom edge.
    pub bottom: i32,
}

impl InvisibleBounds {
    /// Whether `window` is `visible` grown outward by these bounds.
    pub open spec fn relates(self, visible: Rect, window: Rect) -> bool {
        &&& window.x == visible.x - self.left
        &&& window.y == visible.y - self.top
        &&& window.width == visible.width + self.left + self.right
        &&& window.height == visible.height + self.top + self.bottom
    }

    /// Whether no border is negative, as for every real window.
    pub open spec fn is_ordinary(self) -> bool {
        self.left >= 0 && self.top >= 0 && self.right >= 0 && self.bottom >= 0
    }

    /// Whether every step of growing `visible` stays representable.
    pub open spec fn can_grow(self, visible: Rect) -> bool {
        &&& i32::MIN <= visible.x - self.left <= i32::MAX
        &&& i32::MIN <= visible.y - self.top <= i32::MAX
        &&& i32::MIN <= visible.width + self.left <= i32::MAX
        &&& i32::MIN <= visible.width + self.left + self.right <= i32::MAX
        &&& i32::MIN <= visible.height + self.top <= i32::MAX
        &&& i32::MIN <= visible.height + self.top + self.bottom <= i32::MAX
    }

    /// Whether every step of shrinking `window` stays representable.
    pub open spec fn can_shrink(self, window: Rect) -> bool {
        &&& i32::MIN <= window.x + self.left <= i32::MAX
        &&& i32::MIN <= window.y + self.top <= i32::MAX
        &&& i32::MIN <= window.width - self.left <= i32::MAX
        &&& i32::MIN <= window.width - self.left - self.right <= i32::MAX
        &&& i32::MIN <= window.height - self.top <= i32::MAX
        &&& i32::MIN <= window.height - self.top - self.bottom <= i32::MAX
    }

    /// Bounds with all edges at zero: a window with no invisible borders.
    #[must_use]
    pub fn zero() -> (res: Self)
        ensures
            res == (InvisibleBounds { left: 0, top: 0, right: 0, bottom: 0 }),
    {
        Self { left: 0, top: 0, right: 0, bottom: 0 }
    }

    /// Converts a visible rect to the window rect: grows it outward by the
    /// invisible borders.
    #[must_use]
    pub fn visible_to_window(self, visible: Rect) -> (res: Rect)
        requires
            self.can_grow(visible),
        ensures
            self.relates(visible, res),
    {
        Rect {
            x: visible.x - self.left,
            y: visible.y - self.top,
            width: visible.width + self.left + self.right,
            height: visible.height + self.top + self.bottom,
        }
    }

    /// Converts a window rect to the visible rect: the inverse of
    /// [`visible_to_window`](Self::visible_to_window).
    #[must_use]
    pub fn window_to_visible(self, window: Rect) -> (res: Rect)
        requires
            self.can_shrink(window),
        ensures
            self.relates(res, window),
    {
        Rect {
            x: window.x + self.left,
            y: window.y + self.top,
            width: window.width - self.left - self.right,
            height: window.height - self.top - self.bottom,
        }
    }
}

impl Default for InvisibleBounds {
    /// All-zeros bounds.
    fn default() -> (res: Self)
        ensures
            res == (InvisibleBounds { left: 0, top: 0, right: 0, bottom: 0 }),
    {
        Self::zero()
    }
}

/// Growing a visible rect and shrinking the result gives the rect back. With no
/// negative bound no step of the way back overflows.
pub proof fn visible_window_visible(b: InvisibleBounds, visible: Rect, window: Rect, back: Rect)
    requires
        b.can_grow(visible),
        b.relates(visible, window),
        b.relates(back, window),
    ensures
        b.is_ordinary() ==> b.can_shrink(window),
        back == visible,
{
}

/// Shrinking a window rect and growing the result gives the rect back. With no
/// negative bound no step of the way back overflows.
pub proof fn window_visible_window(b: InvisibleBounds, window: Rect, visible: Rect, back: Rect)
    requires
        b.can_shrink(window),
        b.relates(visible, window),
        b.relates(visible, back),
    ensures
        b.is_ordinary() ==> b.can_grow(visible),
        back == window,
{
}

/// Zero bounds leave every rect as it is, in both directions.
pub proof fn zero_bounds_change_nothing(b: InvisibleBounds, visible: Rect, window: Rect)
    requires
        b == (InvisibleBounds { left: 0, top: 0, right: 0, bottom: 0 }),
        b.relates(visible, window),
    ensures
        visible == window,
{
}

/// The window reaches beyond what is visible by the width of the invisible border on each side.
pub proof fn each_side_reaches_out_by_its_bound(b: InvisibleBounds, visible: Rect, window: Rect)
    requires
        b.relates(visible, window),
    ensures
        visible.x - window.x == b.left,
        visible.y - window.y == b.top,
        (window.x + window.width) - (visible.x + visible.width) == b.right,
        (window.y + window.height) - (visible.y + visible.height) == b.bottom,
        b.is_ordinary() ==> forall|px: int, py: int| #[trigger]
            holds_pixel(visible, px, py) ==> holds_pixel(window, px, py),
{
}

/// A rectangle is empty exactly when it holds no pixel.
pub proof fn empty_rects_hold_no_pixel(r: Rect)
    ensures
        r.spec_is_empty() <==> forall|px: int, py: int| !#[trigger] holds_pixel(r, px, py),
{
    if !r.spec_is_empty() {
        assert(holds_pixel(r, r.x as int, r.y as int));
    }
}

} // verus!
