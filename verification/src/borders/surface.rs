//! The cached border bitmap of one window, and what each request makes of it.
use crate::borders::pixel::{opaque_word, pack_bgra, recolor_pixel, recolored};
use crate::borders::raster::{
    clamp_to_half, composite_ring, composited, corner_radius_of, corner_radius_px, fill_block,
    in_block, is_capacity_for, is_coverage_function, lemma_composited_is_drawn, lemma_position,
    lemma_position_unique, lemma_radius_is_clamped, lemma_row_end, next_capacity,
    recolored_ring_equals_ring_in_the_new_color, render_corner_coverage, ring_drawn,
    tile_covers, BufferLayout,
};
use crate::borders::style::{BorderStyle, CornerPreference};
use crate::config::Color;
use vstd::prelude::*;

verus! {

/// Bitmap holding the last rendered border ring.
///
/// The buffer is `buf_w × buf_h` pixels, and the image fills the `w × h` pixels at
/// its top left. Consecutive paints of the same geometry reuse the pixels, a change
/// of colour alone recolours them in place, and every size that fits the buffer is
/// rendered into it.
#[derive(Debug)]
pub struct CachedSurface {
    /// Image width.
    pub w: i32,
    /// Image height.
    pub h: i32,
    /// Row length of the buffer.
    pub buf_w: i32,
    /// Number of rows of the buffer.
    pub buf_h: i32,
    /// Ring thickness that the image was rendered with.
    pub thickness: u32,
    /// Corner preference that the image was rendered with.
    pub corner: CornerPreference,
    /// Colour that the image shows.
    pub color: Color,
    /// Coverage tile of one corner.
    pub coverage: Vec<u8>,
    /// Radius that the tile was rendered for.
    pub tile_r: usize,
    /// Thickness that the tile was rendered for.
    pub tile_t: usize,
    /// Premultiplied BGRA pixels, row by row.
    pub pixels: Vec<u32>,
}

/// Whether an image of this size can be given a buffer: each side has a
/// capacity, and the byte size of the bitmap fits in 32 bits.
pub open spec fn size_fits(w: int, h: int) -> bool {
    &&& w <= 0x4000_0000
    &&& h <= 0x4000_0000
    &&& forall|bw: int, bh: int| #[trigger]
        is_capacity_for(bw, w) && #[trigger] is_capacity_for(bh, h) ==> bw * bh * 4 <= u32::MAX
}

impl CachedSurface {
    /// Whether the sizes belong together.
    pub open spec fn well_formed(&self) -> bool {
        &&& 1 <= self.w <= self.buf_w
        &&& 1 <= self.h <= self.buf_h
        &&& self.pixels@.len() == self.buf_w * self.buf_h
    }

    /// Corner radius that the image asks for.
    pub open spec fn corner_radius(&self) -> int {
        corner_radius_of(self.corner, self.thickness as int)
    }

    /// Whether the cached tile, once there is one, is the one that `f` gives.
    pub open spec fn tile_is_valid<F: Fn(usize, usize, usize, usize, bool) -> u8>(
        &self,
        f: F,
    ) -> bool {
        self.tile_r == usize::MAX || tile_covers(
            f,
            self.tile_r as int,
            self.tile_t as int,
            self.coverage@,
        )
    }

    /// Whether the image is the ring that thickness, corner preference and colour
    /// ask for, on a transparent ground, with coverage as `f` gives it.
    pub open spec fn shows_ring<F: Fn(usize, usize, usize, usize, bool) -> u8>(
        &self,
        f: F,
    ) -> bool {
        &&& self.well_formed()
        &&& self.tile_r == clamp_to_half(self.corner_radius(), self.w as int, self.h as int)
        &&& self.tile_t == clamp_to_half(self.thickness as int, self.w as int, self.h as int)
        &&& tile_covers(f, self.tile_r as int, self.tile_t as int, self.coverage@)
        &&& forall|i: int|
            0 <= i < self.pixels@.len() && in_block(
                i,
                self.buf_w as int,
                0,
                self.w as int,
                0,
                self.h as int,
            ) ==> #[trigger] self.pixels@[i] == composited(
                self.coverage@,
                self.w as int,
                self.h as int,
                self.thickness as int,
                self.corner_radius(),
                opaque_word(self.color),
                i % (self.buf_w as int),
                i / (self.buf_w as int),
                0,
            )
    }

    /// Whether the image has this size, thickness and corner preference.
    pub open spec fn has_shape(&self, w: int, h: int, style: BorderStyle) -> bool {
        &&& self.w == w
        &&& self.h == h
        &&& self.thickness == style.width_px
        &&& self.corner == style.corner_preference
    }

    /// Whether the image can be reused for this size and style, up to its colour.
    pub fn shape_matches(&self, w: i32, h: i32, style: &BorderStyle) -> (res: bool)
        ensures
            res == self.has_shape(w as int, h as int, *style),
    {
        self.w == w && self.h == h && self.thickness == style.width_px && self.corner
            == style.corner_preference
    }

    /// Whether the buffer can hold an image of this size.
    pub fn buffer_fits(&self, w: i32, h: i32) -> (res: bool)
        ensures
            res == (w <= self.buf_w && h <= self.buf_h),
    {
        w <= self.buf_w && h <= self.buf_h
    }

    /// Renders the ring for a size and style into the existing buffer. The corner
    /// tile is kept when its radius and thickness stay the same. Pixels outside the image stay as
    /// they are.
    pub fn render_ring<F: Fn(usize, usize, usize, usize, bool) -> u8>(
        &mut self,
        w: i32,
        h: i32,
        style: &BorderStyle,
        f: &F,
    )
        requires
            old(self).pixels@.len() == old(self).buf_w * old(self).buf_h,
            1 <= w <= old(self).buf_w,
            1 <= h <= old(self).buf_h,
            old(self).tile_is_valid(*f),
            forall|args: (usize, usize, usize, usize, bool)| f.requires(args),
        ensures
            final(self).shows_ring(*f),
            final(self).has_shape(w as int, h as int, *style),
            final(self).color == style.color,
            final(self).buf_w == old(self).buf_w,
            final(self).buf_h == old(self).buf_h,
            final(self).pixels@.len() == old(self).pixels@.len(),
            forall|i: int|
                0 <= i < old(self).pixels@.len() && !in_block(
                    i,
                    old(self).buf_w as int,
                    0,
                    w as int,
                    0,
                    h as int,
                ) ==> #[trigger] final(self).pixels@[i] == old(self).pixels@[i],
    {
        let thickness: usize = style.width_px as usize;
        let stride: usize = self.buf_w as usize;
        let wu: usize = w as usize;
        let hu: usize = h as usize;
        let half: usize = if wu <= hu { wu / 2 } else { hu / 2 };
        let t: usize = if thickness <= half { thickness } else { half };
        let corner_radius: usize = corner_radius_px(style.corner_preference, t);
        let r: usize = if corner_radius <= half { corner_radius } else { half };
        let len: usize = self.pixels.len();
        proof {
            assert(r * r <= wu * hu && wu * hu <= self.buf_w * self.buf_h && hu * stride
                <= self.buf_w * self.buf_h && stride * hu == hu * stride) by (nonlinear_arith)
                requires
                    0 <= r <= wu <= self.buf_w,
                    r <= hu <= self.buf_h,
                    stride == self.buf_w,
            ;
            assert(r < usize::MAX);
            assert(r == clamp_to_half(
                corner_radius_of(style.corner_preference, thickness as int),
                wu as int,
                hu as int,
            ));
        }
        if r != self.tile_r || t != self.tile_t {
            self.coverage = render_corner_coverage(r, t, f);
            self.tile_r = r;
            self.tile_t = t;
        }
        let pixels: &mut [u32] = self.pixels.as_mut_slice();
        fill_block(pixels, stride, 0, wu, 0, hu, 0);
        let ghost blank = pixels@;
        let ghost color: u32 = opaque_word(style.color);
        composite_ring(
            pixels,
            BufferLayout { stride, width: wu, height: hu },
            thickness,
            corner_radius,
            self.coverage.as_slice(),
            pack_bgra(style.color, 0xFF),
        );
        self.w = w;
        self.h = h;
        self.thickness = style.width_px;
        self.corner = style.corner_preference;
        self.color = style.color;
        proof {
            assert forall|i: int|
                0 <= i < self.pixels@.len() && in_block(
                    i,
                    stride as int,
                    0,
                    w as int,
                    0,
                    h as int,
                ) implies #[trigger] self.pixels@[i] == composited(
                self.coverage@,
                w as int,
                h as int,
                thickness as int,
                self.corner_radius(),
                color,
                i % (stride as int),
                i / (stride as int),
                0,
            ) by {
                assert(blank[i] == 0);
                lemma_radius_is_clamped(
                    self.coverage@,
                    w as int,
                    h as int,
                    thickness as int,
                    corner_radius as int,
                    self.corner_radius(),
                    color,
                    i % (stride as int),
                    i / (stride as int),
                    0,
                );
            }
        }
    }

    /// A fresh surface for a size and style, with capacity rounded up to powers of
    /// two.
    pub fn build<F: Fn(usize, usize, usize, usize, bool) -> u8>(
        w: i32,
        h: i32,
        style: &BorderStyle,
        f: &F,
    ) -> (res: Self)
        requires
            1 <= w,
            1 <= h,
            size_fits(w as int, h as int),
            forall|args: (usize, usize, usize, usize, bool)| f.requires(args),
        ensures
            res.shows_ring(*f),
            res.has_shape(w as int, h as int, *style),
            res.color == style.color,
            is_capacity_for(res.buf_w as int, w as int),
            is_capacity_for(res.buf_h as int, h as int),
            forall|i: int|
                0 <= i < res.pixels@.len() && !in_block(
                    i,
                    res.buf_w as int,
                    0,
                    w as int,
                    0,
                    h as int,
                ) ==> #[trigger] res.pixels@[i] == 0,
    {
        let buf_w: i32 = next_capacity(w);
        let buf_h: i32 = next_capacity(h);
        proof {
            assert(0 <= buf_w * buf_h) by (nonlinear_arith)
                requires
                    1 <= buf_w,
                    1 <= buf_h,
            ;
        }
        let len: usize = (buf_w as usize) * (buf_h as usize);
        let mut surface = CachedSurface {
            w,
            h,
            buf_w,
            buf_h,
            thickness: style.width_px,
            corner: style.corner_preference,
            color: style.color,
            coverage: Vec::new(),
            tile_r: usize::MAX,
            tile_t: usize::MAX,
            pixels: vec![0u32; len],
        };
        surface.render_ring(w, h, style, f);
        surface
    }

    /// Swaps the colour of the image in place, keeping every alpha value. Pixels
    /// outside the image stay as they are.
    pub fn recolor(&mut self, new_color: Color)
        requires
            old(self).well_formed(),
        ensures
            final(self).color == new_color,
            final(self).w == old(self).w,
            final(self).h == old(self).h,
            final(self).buf_w == old(self).buf_w,
            final(self).buf_h == old(self).buf_h,
            final(self).thickness == old(self).thickness,
            final(self).corner == old(self).corner,
            final(self).coverage == old(self).coverage,
            final(self).tile_r == old(self).tile_r,
            final(self).tile_t == old(self).tile_t,
            final(self).pixels@.len() == old(self).pixels@.len(),
            forall|i: int|
                0 <= i < old(self).pixels@.len() ==> #[trigger] final(self).pixels@[i]
                    == if in_block(
                    i,
                    old(self).buf_w as int,
                    0,
                    old(self).w as int,
                    0,
                    old(self).h as int,
                ) {
                    recolored(old(self).pixels@[i], new_color)
                } else {
                    old(self).pixels@[i]
                },
    {
        let stride: usize = self.buf_w as usize;
        let w: usize = self.w as usize;
        let h: usize = self.h as usize;
        let len: usize = self.pixels.len();
        proof {
            assert(h * stride <= self.buf_w * self.buf_h) by (nonlinear_arith)
                requires
                    0 <= h <= self.buf_h,
                    stride == self.buf_w,
            ;
        }
        let mut y: usize = 0;
        while y < h
            invariant
                y <= h,
                0 < w <= stride,
                len == self.pixels@.len(),
                h * stride <= len,
                *self == (CachedSurface { pixels: self.pixels, ..*old(self) }),
                self.pixels@.len() == old(self).pixels@.len(),
                forall|i: int|
                    0 <= i < self.pixels@.len() ==> #[trigger] self.pixels@[i] == if in_block(
                        i,
                        stride as int,
                        0,
                        w as int,
                        0,
                        y as int,
                    ) {
                        recolored(old(self).pixels@[i], new_color)
                    } else {
                        old(self).pixels@[i]
                    },
            decreases h - y,
        {
            proof {
                lemma_row_end(stride as int, y as int, h as int);
            }
            let row: usize = y * stride;
            let mut x: usize = 0;
            while x < w
                invariant
                    x <= w,
                    y < h,
                    0 < w <= stride,
                    row == y * stride,
                    row + stride <= len,
                    len == self.pixels@.len(),
                    *self == (CachedSurface { pixels: self.pixels, ..*old(self) }),
                    self.pixels@.len() == old(self).pixels@.len(),
                    forall|i: int|
                        0 <= i < self.pixels@.len() ==> #[trigger] self.pixels@[i] == if in_block(
                            i,
                            stride as int,
                            0,
                            w as int,
                            0,
                            y as int,
                        ) || in_block(i, stride as int, 0, x as int, y as int, y + 1) {
                            recolored(old(self).pixels@[i], new_color)
                        } else {
                            old(self).pixels@[i]
                        },
                decreases w - x,
            {
                proof {
                    lemma_position(stride as int, x as int, y as int);
                }
                let ghost before = self.pixels@;
                let px: u32 = self.pixels[row + x];
                self.pixels[row + x] = recolor_pixel(px, new_color);
                proof {
                    assert forall|i: int| 0 <= i < self.pixels@.len() implies #[trigger] self.pixels@[i]
                        == if in_block(i, stride as int, 0, w as int, 0, y as int) || in_block(
                        i,
                        stride as int,
                        0,
                        x + 1,
                        y as int,
                        y + 1,
                    ) {
                        recolored(old(self).pixels@[i], new_color)
                    } else {
                        old(self).pixels@[i]
                    } by {
                        lemma_position_unique(stride as int, i);
                        if i != row + x {
                            assert(self.pixels@[i] == before[i]);
                        }
                    }
                }
                x = x + 1;
            }
            y = y + 1;
        }
        self.color = new_color;
    }
}

/// Recolouring a surface that shows its ring makes it show the ring in the new
/// colour: nothing has to be rendered again.
pub proof fn recolored_surface_shows_the_ring<F: Fn(usize, usize, usize, usize, bool) -> u8>(
    f: F,
    before: CachedSurface,
    after: CachedSurface,
)
    requires
        before.shows_ring(f),
        after == (CachedSurface { pixels: after.pixels, color: after.color, ..before }),
        after.pixels@.len() == before.pixels@.len(),
        forall|i: int|
            0 <= i < before.pixels@.len() && in_block(
                i,
                before.buf_w as int,
                0,
                before.w as int,
                0,
                before.h as int,
            ) ==> #[trigger] after.pixels@[i] == recolored(before.pixels@[i], after.color),
    ensures
        after.shows_ring(f),
{
    assert forall|i: int|
        0 <= i < after.pixels@.len() && in_block(
            i,
            after.buf_w as int,
            0,
            after.w as int,
            0,
            after.h as int,
        ) implies #[trigger] after.pixels@[i] == composited(
        after.coverage@,
        after.w as int,
        after.h as int,
        after.thickness as int,
        after.corner_radius(),
        opaque_word(after.color),
        i % (after.buf_w as int),
        i / (after.buf_w as int),
        0,
    ) by {
        assert(before.pixels@[i] == before.pixels@[i]);
        recolored_ring_equals_ring_in_the_new_color(
            after.coverage@,
            after.w as int,
            after.h as int,
            after.thickness as int,
            after.corner_radius(),
            before.color,
            after.color,
            i % (after.buf_w as int),
            i / (after.buf_w as int),
        );
    }
}

/// A surface shows, pixel for pixel, what direct rasterising draws on a transparent image of the
/// same size.
pub proof fn surface_equals_direct_rasterising<F: Fn(usize, usize, usize, usize, bool) -> u8>(
    f: F,
    s: CachedSurface,
    before: Seq<u32>,
    after: Seq<u32>,
    x: int,
    y: int,
)
    requires
        is_coverage_function(f),
        s.shows_ring(f),
        before.len() == s.w * s.h,
        forall|i: int| 0 <= i < before.len() ==> before[i] == 0,
        ring_drawn(
            f,
            s.w as int,
            s.h as int,
            s.thickness as int,
            s.corner_radius(),
            opaque_word(s.color),
            before,
            after,
        ),
        0 <= x < s.w,
        0 <= y < s.h,
    ensures
        s.pixels@[y * s.buf_w + x] == after[y * s.w + x],
{
    let (w, h, stride) = (s.w as int, s.h as int, s.buf_w as int);
    let (i, j) = (y * stride + x, y * w + x);
    lemma_position(stride, x, y);
    lemma_position(w, x, y);
    lemma_row_end(w, y, h);
    lemma_row_end(stride, y, s.buf_h as int);
    assert(w * h == h * w) by (nonlinear_arith);
    assert(s.buf_h * stride == stride * s.buf_h) by (nonlinear_arith);
    assert(in_block(i, stride, 0, w, 0, h));
    assert(s.pixels@[i] == composited(
        s.coverage@,
        w,
        h,
        s.thickness as int,
        s.corner_radius(),
        opaque_word(s.color),
        x,
        y,
        0,
    ));
    lemma_composited_is_drawn(
        f,
        s.coverage@,
        w,
        h,
        s.thickness as int,
        s.corner_radius(),
        opaque_word(s.color),
        x,
        y,
        0,
        after[j],
    );
}

} // verus!
