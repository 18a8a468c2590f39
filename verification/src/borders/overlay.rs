//! The topmost border overlay of one window: a square ring that follows the window.
use crate::borders::border::Edges;
use crate::borders::pixel::opaque_word;
use crate::borders::raster::{
    fill_block, lemma_position_unique, lemma_row_bound, lemma_row_end, ring_zone, RingZone,
};
use crate::borders::style::BorderStyle;
use crate::common::Rect;
use crate::config::Color;
use vstd::prelude::*;

verus! {

/// Border overlay attached to one window.
#[derive(Debug, Clone, Copy, PartialEq, Eq, Structural)]
pub struct BorderOverlay {
    /// Handle of the bordered window.
    pub target: isize,
    /// Handle of the overlay window, zero once it is destroyed.
    pub overlay: isize,
    /// Style to show.
    pub style: BorderStyle,
}

/// A bitmap to upload to an overlay.
#[derive(Debug)]
pub struct Frame {
    /// Overlay to update.
    pub hwnd: isize,
    /// Screen rect of the overlay.
    pub rect: Rect,
    /// Premultiplied BGRA pixels, row by row.
    pub pixels: Vec<u32>,
}

/// Width or height between two edges, never negative.
pub open spec fn extent(low: int, high: int) -> int {
    if high > low { high - low } else { 0 }
}

/// Whether a pixel lies in a square ring: closer to an edge than the thickness.
pub open spec fn in_square_ring(width: int, height: int, thickness: int, x: int, y: int) -> bool {
    x < thickness || x >= width - thickness || y < thickness || y >= height - thickness
}

/// Whether the bitmap of a window with these edges fits in 32 bits.
pub open spec fn frame_fits(edges: Edges) -> bool {
    &&& edges.fits()
    &&& extent(edges.left as int, edges.right as int) * extent(
        edges.top as int,
        edges.bottom as int,
    ) * 4 <= u32::MAX
}

impl Frame {
    /// Whether this is the ring of `overlay` around a window with these edges.
    pub open spec fn shows(&self, overlay: BorderOverlay, edges: Edges) -> bool {
        let w = edges.right - edges.left;
        let h = edges.bottom - edges.top;
        &&& self.hwnd == overlay.overlay
        &&& edges.bound(self.rect)
        &&& self.pixels@.len() == w * h
        &&& forall|i: int|
            0 <= i < self.pixels@.len() ==> #[trigger] self.pixels@[i] == if in_square_ring(
                w,
                h,
                overlay.style.width_px as int,
                i % w,
                i / w,
            ) {
                opaque_word(overlay.style.color)
            } else {
                0
            }
    }
}

impl BorderOverlay {
    /// An overlay window attached to a target.
    pub fn create(target: isize, style: BorderStyle, overlay: isize) -> (res: Self)
        ensures
            res == (BorderOverlay { target, overlay, style }),
    {
        BorderOverlay { target, overlay, style }
    }

    /// Handle of the bordered window.
    pub fn target_hwnd(&self) -> (res: isize)
        ensures
            res == self.target,
    {
        self.target
    }

    /// Takes over a style; the overlay window stays.
    pub fn set_style(&mut self, style: BorderStyle)
        ensures
            *final(self) == (BorderOverlay { style, ..*old(self) }),
    {
        self.style = style;
    }

    /// The overlay to show or hide; nothing once it is destroyed.
    #[must_use]
    pub fn set_visible(&self, visible: bool) -> (res: Option<(isize, bool)>)
        ensures
            res == if self.overlay == 0 {
                None
            } else {
                Some((self.overlay, visible))
            },
    {
        if self.overlay == 0 {
            return None;
        }
        Some((self.overlay, visible))
    }

    /// Where the overlay has to go to cover its window, and the bitmap for it.
    ///
    /// `edges` are the edges of the window, if it still exists and they can be had.
    /// Nothing is to be done without them, for a destroyed overlay or for a window
    /// without area.
    #[must_use]
    pub fn sync_geometry(&self, edges: Option<Edges>) -> (res: Option<Frame>)
        requires
            edges is Some ==> frame_fits(edges->Some_0),
        ensures
            res is Some <==> {
                &&& self.overlay != 0
                &&& edges is Some
                &&& edges->Some_0.left < edges->Some_0.right
                &&& edges->Some_0.top < edges->Some_0.bottom
            },
            res is Some ==> res->Some_0.shows(*self, edges->Some_0),
    {
        if self.overlay == 0 {
            return None;
        }
        match edges {
            Some(e) => self.redraw_with_rect(e),
            None => None,
        }
    }

    /// The bitmap for the current style and the window's current edges.
    #[must_use]
    pub fn redraw(&self, edges: Option<Edges>) -> (res: Option<Frame>)
        requires
            edges is Some ==> frame_fits(edges->Some_0),
        ensures
            res is Some <==> {
                &&& self.overlay != 0
                &&& edges is Some
                &&& edges->Some_0.left < edges->Some_0.right
                &&& edges->Some_0.top < edges->Some_0.bottom
            },
            res is Some ==> res->Some_0.shows(*self, edges->Some_0),
    {
        match edges {
            Some(e) => self.redraw_with_rect(e),
            None => None,
        }
    }

    /// The bitmap for the current style around a window with the given edges: an opaque
    /// ring on a transparent ground. Nothing for a destroyed overlay or a window without
    /// area.
    #[must_use]
    pub fn redraw_with_rect(&self, edges: Edges) -> (res: Option<Frame>)
        requires
            frame_fits(edges),
        ensures
            res is Some <==> {
                &&& self.overlay != 0
                &&& edges.left < edges.right
                &&& edges.top < edges.bottom
            },
            res is Some ==> res->Some_0.shows(*self, edges),
    {
        if self.overlay == 0 {
            return None;
        }
        let rect: Rect = edges.to_rect();
        if rect.width <= 0 || rect.height <= 0 {
            return None;
        }
        let w: usize = rect.width as usize;
        let h: usize = rect.height as usize;
        proof {
            assert(0 <= w * h) by (nonlinear_arith)
                requires
                    0 <= w,
                    0 <= h,
            ;
        }
        let mut pixels: Vec<u32> = vec![0u32; w * h];
        let colored: u32 = pack_bgra(self.style.color, 0xFF);
        fill_border_ring(
            pixels.as_mut_slice(),
            w,
            h,
            self.style.width_px as usize,
            colored,
        );
        Some(Frame { hwnd: self.overlay, rect, pixels })
    }

    /// Marks the overlay as destroyed and gives the handle to destroy, the first time
    /// only.
    pub fn destroy(&mut self) -> (res: Option<isize>)
        ensures
            res == if old(self).overlay == 0 {
                None
            } else {
                Some(old(self).overlay)
            },
            *final(self) == (BorderOverlay { overlay: 0, ..*old(self) }),
    {
        let raw: isize = self.overlay;
        if raw == 0 {
            return None;
        }
        self.overlay = 0;
        Some(raw)
    }
}

/// Packs a colour and an alpha value into a BGRA word.
#[must_use]
pub fn pack_bgra(color: Color, alpha: u8) -> (res: u32)
    ensures
        res == crate::borders::pixel::bgra_word(
            alpha as int,
            color.r as int,
            color.g as int,
            color.b as int,
        ),
{
    crate::borders::pixel::pack_bgra(color, alpha)
}

/// Fills the outer ring of a `width × height` buffer, leaving the interior alone. A
/// thickness that reaches the middle just fills the whole buffer.
pub fn fill_border_ring(
    pixels: &mut [u32],
    width: usize,
    height: usize,
    thickness: usize,
    color: u32,
)
    requires
        old(pixels)@.len() == width * height,
    ensures
        final(pixels)@.len() == old(pixels)@.len(),
        forall|i: int|
            0 <= i < old(pixels)@.len() ==> #[trigger] final(pixels)@[i] == if in_square_ring(
                width as int,
                height as int,
                thickness as int,
                i % (width as int),
                i / (width as int),
            ) {
                color
            } else {
                old(pixels)@[i]
            },
{
    if width == 0 || height == 0 {
        proof {
            assert(width * height == 0) by (nonlinear_arith)
                requires
                    width == 0 || height == 0,
            ;
        }
        return ;
    }
    proof {
        assert(width * height == height * width) by (nonlinear_arith);
    }
    let side: usize = if width <= height { width } else { height };
    if thickness > side / 2 {
        fill_block(pixels, width, 0, width, 0, height, color);
    } else if thickness > 0 {
        let t: usize = thickness;
        proof {
            lemma_row_end(width as int, t - 1, height as int);
            lemma_row_end(width as int, height - t - 1, height as int);
        }
        fill_block(pixels, width, 0, width, 0, t, color);
        fill_block(pixels, width, 0, width, height - t, height, color);
        fill_block(pixels, width, 0, t, t, height - t, color);
        fill_block(pixels, width, width - t, width, t, height - t, color);
    }
    proof {
        let w = width as int;
        assert forall|i: int| 0 <= i < pixels@.len() implies #[trigger] pixels@[i]
            == if in_square_ring(w, height as int, thickness as int, i % w, i / w) {
            color
        } else {
            old(pixels)@[i]
        } by {
            lemma_position_unique(w, i);
            lemma_row_bound(i, w, height as int);
        }
    }
}

/// What an overlay shows around a window: a rect with its edges, the colour of the style in every
/// pixel that is closer to one of the four edges than the width of the style, and nothing inside.
pub proof fn overlays_frame_their_window(
    frame: Frame,
    overlay: BorderOverlay,
    edges: Edges,
    x: int,
    y: int,
)
    requires
        frame.shows(overlay, edges),
        0 <= x < edges.right - edges.left,
        0 <= y < edges.bottom - edges.top,
    ensures
        frame.hwnd == overlay.overlay,
        frame.rect.x == edges.left,
        frame.rect.y == edges.top,
        frame.rect.width == edges.right - edges.left,
        frame.rect.height == edges.bottom - edges.top,
        ({
            let width = overlay.style.width_px;
            let color = overlay.style.color;
            let w = edges.right - edges.left;
            frame.pixels@[y * w + x] == if x < width || y < width || w - x <= width || edges.bottom
                - edges.top - y <= width {
                0xFF00_0000 + color.r * 0x1_0000 + color.g * 0x100 + color.b
            } else {
                0
            }
        }),
{
    let w = edges.right - edges.left;
    let h = edges.bottom - edges.top;
    crate::borders::raster::lemma_position(w, x, y);
    lemma_row_end(w, y, h);
    assert(w * h == h * w) by (nonlinear_arith);
    let i = y * w + x;
    assert(frame.pixels@[i] == frame.pixels@[i]);
}

/// The square ring is the general ring without a corner radius.
pub proof fn square_ring_is_the_ring_without_radius(
    width: int,
    height: int,
    thickness: int,
    x: int,
    y: int,
)
    requires
        0 <= x < width,
        0 <= y < height,
        0 <= thickness,
    ensures
        ring_zone(width, height, thickness, 0, x, y) == if in_square_ring(
            width,
            height,
            thickness,
            x,
            y,
        ) {
            RingZone::Band
        } else {
            RingZone::Clear
        },
{
}

/// A thickness of half of the shorter side or more colours every pixel.
pub proof fn oversized_square_ring_fills_the_image(
    width: int,
    height: int,
    thickness: int,
    x: int,
    y: int,
)
    requires
        0 <= x < width,
        0 <= y < height,
        2 * thickness >= if width <= height { width } else { height },
    ensures
        in_square_ring(width, height, thickness, x, y),
{
}

} // verus!
