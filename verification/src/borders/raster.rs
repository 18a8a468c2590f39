//! Rasterising a border ring into a premultiplied 32-bit pixel buffer.
use crate::borders::pixel::{
    full_coverage_is_the_opaque_word, opaque_word, pack_premultiplied, premultiplied,
    recolor_equals_rendering_in_the_new_color, recolored,
};
use crate::borders::style::CornerPreference;
use crate::config::Color;
use vstd::arithmetic::div_mod::lemma_fundamental_div_mod;
use vstd::arithmetic::div_mod::lemma_fundamental_div_mod_converse;
use vstd::arithmetic::power2::lemma2_to64;
use vstd::arithmetic::power2::lemma_pow2_strictly_increases;
use vstd::arithmetic::power2::lemma_pow2_unfold;
use vstd::arithmetic::power2::pow2;
use vstd::prelude::*;

verus! {

// ---------------------------------------------------------------------------
// Buffers: pixel `i` of a buffer with row length `stride` sits in row
// `i / stride` and column `i % stride`
// ---------------------------------------------------------------------------

/// Whether buffer position `i` lies in the columns `x0..x1` of the rows `y0..y1`.
pub open spec fn in_block(i: int, stride: int, x0: int, x1: int, y0: int, y1: int) -> bool {
    x0 <= i % stride < x1 && y0 <= i / stride < y1
}

/// Row and column of position `y * stride + x`.
pub proof fn lemma_position(stride: int, x: int, y: int)
    requires
        0 <= x < stride,
        0 <= y,
    ensures
        0 <= y * stride,
        (y * stride + x) / stride == y,
        (y * stride + x) % stride == x,
{
    assert(0 <= y * stride) by (nonlinear_arith)
        requires
            0 <= y,
            0 < stride,
    ;
    lemma_fundamental_div_mod_converse(y * stride + x, stride, y, x);
}

/// A row above the bottom ends inside the buffer.
pub proof fn lemma_row_end(stride: int, y: int, rows: int)
    requires
        0 <= stride,
        0 <= y < rows,
    ensures
        0 <= y * stride,
        y * stride + stride <= rows * stride,
        (y + 1) * stride == y * stride + stride,
{
    assert(0 <= y * stride && y * stride + stride <= rows * stride && (y + 1) * stride == y * stride
        + stride) by (nonlinear_arith)
        requires
            0 <= stride,
            0 <= y < rows,
    ;
}

/// A position is determined by its row and column.
pub proof fn lemma_position_unique(stride: int, i: int)
    requires
        0 < stride,
        0 <= i,
    ensures
        i == (i / stride) * stride + i % stride,
        0 <= i % stride < stride,
        0 <= i / stride,
{
    lemma_fundamental_div_mod(i, stride);
    assert(stride * (i / stride) == (i / stride) * stride) by (nonlinear_arith);
    assert(0 <= i / stride) by (nonlinear_arith)
        requires
            0 < stride,
            0 <= i,
    ;
}

/// Sets the pixels at the positions `start..end` to `color`.
fn fill_span(pixels: &mut [u32], start: usize, end: usize, color: u32)
    requires
        start <= end <= old(pixels)@.len(),
    ensures
        final(pixels)@.len() == old(pixels)@.len(),
        forall|i: int|
            0 <= i < old(pixels)@.len() ==> #[trigger] final(pixels)@[i] == if start <= i < end {
                color
            } else {
                old(pixels)@[i]
            },
{
    let mut k: usize = start;
    while k < end
        invariant
            start <= k <= end <= pixels@.len(),
            pixels@.len() == old(pixels)@.len(),
            forall|i: int|
                0 <= i < pixels@.len() ==> #[trigger] pixels@[i] == if start <= i < k {
                    color
                } else {
                    old(pixels)@[i]
                },
        decreases end - k,
    {
        pixels[k] = color;
        k = k + 1;
    }
}

/// Sets the columns `x0..x1` of the rows `y0..y1` to `color`.
pub fn fill_block(
    pixels: &mut [u32],
    stride: usize,
    x0: usize,
    x1: usize,
    y0: usize,
    y1: usize,
    color: u32,
)
    requires
        x0 <= x1 <= stride,
        y0 <= y1,
        0 < stride,
        y1 * stride <= old(pixels)@.len(),
    ensures
        final(pixels)@.len() == old(pixels)@.len(),
        forall|i: int|
            0 <= i < old(pixels)@.len() ==> #[trigger] final(pixels)@[i] == if in_block(
                i,
                stride as int,
                x0 as int,
                x1 as int,
                y0 as int,
                y1 as int,
            ) {
                color
            } else {
                old(pixels)@[i]
            },
{
    let len: usize = pixels.len();
    let mut y: usize = y0;
    while y < y1
        invariant
            len == pixels@.len(),
            x0 <= x1 <= stride,
            y0 <= y <= y1,
            0 < stride,
            y1 * stride <= pixels@.len(),
            pixels@.len() == old(pixels)@.len(),
            forall|i: int|
                0 <= i < pixels@.len() ==> #[trigger] pixels@[i] == if in_block(
                    i,
                    stride as int,
                    x0 as int,
                    x1 as int,
                    y0 as int,
                    y as int,
                ) {
                    color
                } else {
                    old(pixels)@[i]
                },
        decreases y1 - y,
    {
        proof {
            lemma_row_end(stride as int, y as int, y1 as int);
        }
        let row: usize = y * stride;
        let ghost before = pixels@;
        fill_span(pixels, row + x0, row + x1, color);
        proof {
            assert forall|i: int| 0 <= i < pixels@.len() implies #[trigger] pixels@[i] == if in_block(
                i,
                stride as int,
                x0 as int,
                x1 as int,
                y0 as int,
                y + 1,
            ) {
                color
            } else {
                old(pixels)@[i]
            } by {
                lemma_position_unique(stride as int, i);
                if row + x0 <= i < row + x1 {
                    lemma_position(stride as int, i - row, y as int);
                } else {
                    assert(pixels@[i] == before[i]);
                    if i / (stride as int) == y {
                        assert(i == row + i % (stride as int));
                    }
                }
            }
        }
        y = y + 1;
    }
}

// ---------------------------------------------------------------------------
// The ring
// ---------------------------------------------------------------------------

/// Half of the shorter side, rounded down: no corner is rounder than this.
pub open spec fn half_side(width: int, height: int) -> int {
    (if width <= height { width } else { height }) / 2
}

/// A length clamped to half of the shorter side.
pub open spec fn clamp_to_half(n: int, width: int, height: int) -> int {
    if n <= half_side(width, height) { n } else { half_side(width, height) }
}

/// What part of the ring a pixel belongs to.
pub enum RingZone {
    /// One of the four corner squares; `u` and `v` count the pixels between
    /// this one and the centre of the arc.
    Corner { u: int, v: int },
    /// A straight edge band.
    Band,
    /// The interior, which the ring leaves alone.
    Clear,
}

/// Distance index of coordinate `p` from the end of a side of length `n` whose
/// corner squares measure `r`.
pub open spec fn arc_distance(p: int, n: int, r: int) -> int {
    if p < r { r - 1 - p } else { p - (n - r) }
}

/// The zone of pixel `(x, y)` in a ring on a `width × height` image. A thickness that reaches
/// the middle leaves no interior.
pub open spec fn ring_zone(
    width: int,
    height: int,
    thickness: int,
    corner_radius: int,
    x: int,
    y: int,
) -> RingZone {
    let r = clamp_to_half(corner_radius, width, height);
    if thickness <= 0 {
        RingZone::Clear
    } else if (x < r || x >= width - r) && (y < r || y >= height - r) {
        RingZone::Corner { u: arc_distance(x, width, r), v: arc_distance(y, height, r) }
    } else if x < thickness || x >= width - thickness || y < thickness || y >= height - thickness {
        RingZone::Band
    } else {
        RingZone::Clear
    }
}

/// A corner pixel after it was covered to the degree `alpha`: an uncovered one
/// keeps what it held.
pub open spec fn covered(before: u32, color: u32, alpha: u8) -> u32 {
    if alpha > 0 { premultiplied(color, alpha) } else { before }
}

/// Radius of the inner arc.
pub open spec fn inner_radius(r: int, t: int) -> int {
    if r > t { r - t } else { 0 }
}

/// The smaller of two distances.
pub open spec fn nearer(u: int, v: int) -> int {
    if u <= v { u } else { v }
}

/// The greater of two distances.
pub open spec fn farther(u: int, v: int) -> int {
    if u <= v { v } else { u }
}

/// Whether `alpha` is what the coverage function `f` gives for the corner pixel
/// at distance `(u, v)` from the arc centre, for outer radius `r` and ring
/// thickness `t`. The arc is its own mirror image, so `f` is asked with the smaller distance
/// first.
pub open spec fn covers<F: Fn(usize, usize, usize, usize, bool) -> u8>(
    f: F,
    r: int,
    t: int,
    u: int,
    v: int,
    alpha: u8,
) -> bool {
    f.ensures(
        (
            nearer(u, v) as usize,
            farther(u, v) as usize,
            r as usize,
            inner_radius(r, t) as usize,
            u < r - t && v < r - t,
        ),
        alpha,
    )
}

/// Whether the coverage function can be called on everything and always gives
/// the same answer to the same question.
pub open spec fn is_coverage_function<F: Fn(usize, usize, usize, usize, bool) -> u8>(
    f: F,
) -> bool {
    &&& forall|args: (usize, usize, usize, usize, bool)| f.requires(args)
    &&& forall|args: (usize, usize, usize, usize, bool), a: u8, b: u8|
        f.ensures(args, a) && f.ensures(args, b) ==> a == b
}

/// Whether a corner pixel went from `before` to `after` by being covered as `f`
/// says.
pub open spec fn corner_drawn<F: Fn(usize, usize, usize, usize, bool) -> u8>(
    f: F,
    r: int,
    t: int,
    u: int,
    v: int,
    color: u32,
    before: u32,
    after: u32,
) -> bool {
    exists|a: u8| #[trigger] covers(f, r, t, u, v, a) && after == covered(before, color, a)
}

/// Whether pixel `(x, y)` went from `before` to `after` by drawing the ring with
/// coverage function `f`.
pub open spec fn drawn<F: Fn(usize, usize, usize, usize, bool) -> u8>(
    f: F,
    width: int,
    height: int,
    thickness: int,
    corner_radius: int,
    color: u32,
    x: int,
    y: int,
    before: u32,
    after: u32,
) -> bool {
    let t = clamp_to_half(thickness, width, height);
    let r = clamp_to_half(corner_radius, width, height);
    match ring_zone(width, height, thickness, corner_radius, x, y) {
        RingZone::Corner { u, v } => corner_drawn(f, r, t, u, v, color, before, after),
        RingZone::Band => after == color,
        RingZone::Clear => after == before,
    }
}

/// Whether `after` is the tight `width × height` image `before` with a ring drawn.
pub open spec fn ring_drawn<F: Fn(usize, usize, usize, usize, bool) -> u8>(
    f: F,
    width: int,
    height: int,
    thickness: int,
    corner_radius: int,
    color: u32,
    before: Seq<u32>,
    after: Seq<u32>,
) -> bool {
    &&& after.len() == before.len()
    &&& forall|i: int|
        0 <= i < before.len() ==> drawn(
            f,
            width,
            height,
            thickness,
            corner_radius,
            color,
            i % width,
            i / width,
            before[i],
            #[trigger] after[i],
        )
}

/// Distance of coordinate `p` from the arc centre line `c`, in whole pixels.
pub open spec fn reflected(p: int, c: int) -> int {
    if p < c { c - p - 1 } else { p - c }
}

/// Coverage of the corner pixel `(px, py)` whose arc is centred on `(cx, cy)`:
/// the pixel is reflected into the octant where both distances grow and the first is the smaller
/// one, and `f` says how much of it the ring covers.
pub fn corner_pixel_alpha<F: Fn(usize, usize, usize, usize, bool) -> u8>(
    px: usize,
    py: usize,
    cx: usize,
    cy: usize,
    outer_r: usize,
    inner_r: usize,
    in_inner_corner: bool,
    f: &F,
) -> (res: u8)
    requires
        forall|args: (usize, usize, usize, usize, bool)| f.requires(args),
    ensures
        f.ensures(
            (
                nearer(reflected(px as int, cx as int), reflected(py as int, cy as int)) as usize,
                farther(reflected(px as int, cx as int), reflected(py as int, cy as int)) as usize,
                outer_r,
                inner_r,
                in_inner_corner,
            ),
            res,
        ),
{
    let u: usize = if px < cx { cx - px - 1 } else { px - cx };
    let v: usize = if py < cy { cy - py - 1 } else { py - cy };
    if u <= v {
        f(u, v, outer_r, inner_r, in_inner_corner)
    } else {
        f(v, u, outer_r, inner_r, in_inner_corner)
    }
}

/// Draws one of the four corner squares of the ring.
fn draw_corner<F: Fn(usize, usize, usize, usize, bool) -> u8>(
    pixels: &mut [u32],
    width: usize,
    height: usize,
    left: bool,
    top: bool,
    r: usize,
    t: usize,
    color: u32,
    f: &F,
)
    requires
        0 < r,
        0 < t,
        2 * r <= width,
        2 * r <= height,
        2 * t <= width,
        2 * t <= height,
        old(pixels)@.len() == width * height,
        forall|args: (usize, usize, usize, usize, bool)| f.requires(args),
    ensures
        final(pixels)@.len() == old(pixels)@.len(),
        forall|i: int|
            0 <= i < old(pixels)@.len() ==> corner_step(
                *f,
                width as int,
                height as int,
                left,
                top,
                r as int,
                t as int,
                r as int,
                0,
                color,
                i,
                old(pixels)@[i],
                #[trigger] final(pixels)@[i],
            ),
{
    let x0: usize = if left { 0 } else { width - r };
    let y0: usize = if top { 0 } else { height - r };
    let cx: usize = if left { r } else { width - r };
    let cy: usize = if top { r } else { height - r };
    let inner_r: usize = if r > t { r - t } else { 0 };
    let len: usize = pixels.len();
    let mut j: usize = 0;
    while j < r
        invariant
            len == pixels@.len(),
            j <= r,
            0 < r,
            0 < t,
            2 * r <= width,
            2 * r <= height,
            2 * t <= width,
            2 * t <= height,
            x0 == if left { 0 } else { width - r },
            y0 == if top { 0 } else { height - r },
            cx == if left { r as int } else { width - r },
            cy == if top { r as int } else { height - r },
            inner_r == inner_radius(r as int, t as int),
            pixels@.len() == width * height,
            pixels@.len() == old(pixels)@.len(),
            forall|args: (usize, usize, usize, usize, bool)| f.requires(args),
            forall|i: int|
                0 <= i < pixels@.len() ==> corner_step(
                    *f,
                    width as int,
                    height as int,
                    left,
                    top,
                    r as int,
                    t as int,
                    j as int,
                    0,
                    color,
                    i,
                    old(pixels)@[i],
                    #[trigger] pixels@[i],
                ),
        decreases r - j,
    {
        let py: usize = y0 + j;
        proof {
            lemma_row_end(width as int, py as int, height as int);
            assert(width * height == height * width) by (nonlinear_arith);
        }
        let row: usize = py * width;
        let mut k: usize = 0;
        while k < r
            invariant
                len == pixels@.len(),
                k <= r,
                j < r,
                0 < r,
                0 < t,
                2 * r <= width,
                2 * r <= height,
                2 * t <= width,
                2 * t <= height,
                x0 == if left { 0 } else { width - r },
                y0 == if top { 0 } else { height - r },
                cx == if left { r as int } else { width - r },
                cy == if top { r as int } else { height - r },
                inner_r == inner_radius(r as int, t as int),
                py == y0 + j,
                row == py * width,
                row + width <= pixels@.len(),
                pixels@.len() == width * height,
                pixels@.len() == old(pixels)@.len(),
                forall|args: (usize, usize, usize, usize, bool)| f.requires(args),
                forall|i: int|
                    0 <= i < pixels@.len() ==> corner_step(
                        *f,
                        width as int,
                        height as int,
                        left,
                        top,
                        r as int,
                        t as int,
                        j as int,
                        k as int,
                        color,
                        i,
                        old(pixels)@[i],
                        #[trigger] pixels@[i],
                    ),
            decreases r - k,
        {
            let px: usize = x0 + k;
            let in_x: bool = if left { px >= t } else { px < width - t };
            let in_y: bool = if top { py >= t } else { py < height - t };
            let alpha: u8 = corner_pixel_alpha(px, py, cx, cy, r, inner_r, in_x && in_y, f);
            let ghost before = pixels@;
            proof {
                lemma_position(width as int, px as int, py as int);
                assert(corner_step(
                    *f,
                    width as int,
                    height as int,
                    left,
                    top,
                    r as int,
                    t as int,
                    j as int,
                    k as int,
                    color,
                    row + px,
                    old(pixels)@[row + px],
                    before[row + px],
                ));
                assert(covers(
                    *f,
                    r as int,
                    t as int,
                    arc_distance(px as int, width as int, r as int),
                    arc_distance(py as int, height as int, r as int),
                    alpha,
                ));
            }
            if alpha > 0 {
                pixels[row + px] = pack_premultiplied(color, alpha);
            }
            proof {
                assert forall|i: int| 0 <= i < pixels@.len() implies corner_step(
                    *f,
                    width as int,
                    height as int,
                    left,
                    top,
                    r as int,
                    t as int,
                    j as int,
                    k + 1,
                    color,
                    i,
                    old(pixels)@[i],
                    #[trigger] pixels@[i],
                ) by {
                    lemma_position_unique(width as int, i);
                    assert(corner_step(
                        *f,
                        width as int,
                        height as int,
                        left,
                        top,
                        r as int,
                        t as int,
                        j as int,
                        k as int,
                        color,
                        i,
                        old(pixels)@[i],
                        before[i],
                    ));
                    if i != row + px {
                        assert(pixels@[i] == before[i]);
                    }
                }
            }
            k = k + 1;
        }
        proof {
            assert forall|i: int| 0 <= i < pixels@.len() implies corner_step(
                *f,
                width as int,
                height as int,
                left,
                top,
                r as int,
                t as int,
                j + 1,
                0,
                color,
                i,
                old(pixels)@[i],
                #[trigger] pixels@[i],
            ) by {
                lemma_position_unique(width as int, i);
            }
        }
        j = j + 1;
    }
}

/// Progress of drawing one corner square: position `i` is drawn if it lies in one
/// of the first `rows` rows of the square, or among the first `cols` pixels of
/// the next row; every other position is as before.
spec fn corner_step<F: Fn(usize, usize, usize, usize, bool) -> u8>(
    f: F,
    width: int,
    height: int,
    left: bool,
    top: bool,
    r: int,
    t: int,
    rows: int,
    cols: int,
    color: u32,
    i: int,
    before: u32,
    after: u32,
) -> bool {
    let x = i % width - if left { 0 } else { width - r };
    let y = i / width - if top { 0 } else { height - r };
    if 0 <= x < r && 0 <= y && (y < rows || (y == rows && x < cols)) {
        corner_drawn(
            f,
            r,
            t,
            arc_distance(i % width, width, r),
            arc_distance(i / width, height, r),
            color,
            before,
            after,
        )
    } else {
        after == before
    }
}

/// Rasterises a ring into a tight `width × height` buffer, asking `f` for the
/// coverage of every pixel in a corner square.
///
/// The corner radius is clamped to half of the shorter side. A thickness that reaches the
/// middle just fills everything between the corner squares. Interior pixels, and corner pixels with
/// no coverage, keep their value.
pub fn fill_border_ring<F: Fn(usize, usize, usize, usize, bool) -> u8>(
    pixels: &mut [u32],
    width: usize,
    height: usize,
    thickness: usize,
    corner_radius: usize,
    color: u32,
    f: &F,
)
    requires
        old(pixels)@.len() == width * height,
        forall|args: (usize, usize, usize, usize, bool)| f.requires(args),
    ensures
        ring_drawn(
            *f,
            width as int,
            height as int,
            thickness as int,
            corner_radius as int,
            color,
            old(pixels)@,
            final(pixels)@,
        ),
{
    if width == 0 || height == 0 {
        return ;
    }
    let half: usize = if width <= height { width / 2 } else { height / 2 };
    if thickness == 0 {
        return ;
    }
    let t: usize = if thickness <= half { thickness } else { half };
    let r: usize = if corner_radius <= half { corner_radius } else { half };
    let band: usize = band_width(thickness, width, height);
    proof {
        assert(width * height == height * width) by (nonlinear_arith);
    }
    fill_bands(pixels, width, width, height, r, band, color);
    let ghost banded = pixels@;
    let ghost mut one = pixels@;
    let ghost mut two = pixels@;
    let ghost mut three = pixels@;
    if r > 0 {
        draw_corner(pixels, width, height, true, true, r, t, color, f);
        proof {
            one = pixels@;
        }
        draw_corner(pixels, width, height, false, true, r, t, color, f);
        proof {
            two = pixels@;
        }
        draw_corner(pixels, width, height, true, false, r, t, color, f);
        proof {
            three = pixels@;
        }
        draw_corner(pixels, width, height, false, false, r, t, color, f);
    }
    proof {
        let (w, h) = (width as int, height as int);
        assert forall|i: int| 0 <= i < pixels@.len() implies drawn(
            *f,
            w,
            h,
            thickness as int,
            corner_radius as int,
            color,
            i % w,
            i / w,
            old(pixels)@[i],
            #[trigger] pixels@[i],
        ) by {
            lemma_drawn(
                *f,
                w,
                h,
                thickness as int,
                corner_radius as int,
                color,
                i,
                old(pixels)@[i],
                seq![banded[i], one[i], two[i], three[i], pixels@[i]],
            );
        }
    }
}

/// A length clamped to half of the shorter side, rounded up: two bands of this width meet in
/// the middle.
spec fn clamp_to_middle(n: int, width: int, height: int) -> int {
    let middle = ((if width <= height { width } else { height }) + 1) / 2;
    if n <= middle { n } else { middle }
}

/// The width of the edge bands.
fn band_width(thickness: usize, width: usize, height: usize) -> (res: usize)
    ensures
        res == clamp_to_middle(thickness as int, width as int, height as int),
{
    let side: usize = if width <= height { width } else { height };
    let middle: usize = side - side / 2;
    if thickness <= middle { thickness } else { middle }
}

/// A position after the four bands were filled.
spec fn banded_pixel(
    i: int,
    stride: int,
    width: int,
    height: int,
    r: int,
    t: int,
    before: u32,
    color: u32,
) -> u32 {
    if in_block(i, stride, r, width - r, 0, t) || in_block(
        i,
        stride,
        r,
        width - r,
        height - t,
        height,
    ) || in_block(i, stride, 0, t, r, height - r) || in_block(
        i,
        stride,
        width - t,
        width,
        r,
        height - r,
    ) {
        color
    } else {
        before
    }
}

/// Fills the straight edge bands: the first and last `t` rows without the corner
/// columns, then the first and last `t` columns of the rows between the corners.
fn fill_bands(
    pixels: &mut [u32],
    stride: usize,
    width: usize,
    height: usize,
    r: usize,
    t: usize,
    color: u32,
)
    requires
        0 < t,
        2 * r <= width <= stride,
        2 * r <= height,
        t <= width,
        t <= height,
        stride * height <= old(pixels)@.len(),
    ensures
        final(pixels)@.len() == old(pixels)@.len(),
        forall|i: int|
            0 <= i < old(pixels)@.len() ==> #[trigger] final(pixels)@[i] == banded_pixel(
                i,
                stride as int,
                width as int,
                height as int,
                r as int,
                t as int,
                old(pixels)@[i],
                color,
            ),
{
    proof {
        assert(stride * height == height * stride) by (nonlinear_arith);
        lemma_row_end(stride as int, t - 1, height as int);
        if r < height {
            lemma_row_end(stride as int, height - r - 1, height as int);
        }
    }
    fill_block(pixels, stride, r, width - r, 0, t, color);
    fill_block(pixels, stride, r, width - r, height - t, height, color);
    fill_block(pixels, stride, 0, t, r, height - r, color);
    fill_block(pixels, stride, width - t, width, r, height - r, color);
}

/// One pixel through all steps of drawing a ring: after the bands and after each
/// of the four corner squares.
proof fn lemma_drawn<F: Fn(usize, usize, usize, usize, bool) -> u8>(
    f: F,
    w: int,
    h: int,
    thickness: int,
    corner_radius: int,
    color: u32,
    i: int,
    before: u32,
    steps: Seq<u32>,
)
    requires
        0 < w,
        0 < h,
        0 <= i < w * h,
        0 < thickness,
        0 <= corner_radius,
        steps.len() == 5,
        ({
            let r = clamp_to_half(corner_radius, w, h);
            let t = clamp_to_half(thickness, w, h);
            &&& steps[0] == banded_pixel(i, w, w, h, r, clamp_to_middle(thickness, w, h), before, color)
            &&& if r > 0 {
                &&& corner_step(f, w, h, true, true, r, t, r, 0, color, i, steps[0], steps[1])
                &&& corner_step(f, w, h, false, true, r, t, r, 0, color, i, steps[1], steps[2])
                &&& corner_step(f, w, h, true, false, r, t, r, 0, color, i, steps[2], steps[3])
                &&& corner_step(f, w, h, false, false, r, t, r, 0, color, i, steps[3], steps[4])
            } else {
                steps[4] == steps[0]
            }
        }),
    ensures
        drawn(f, w, h, thickness, corner_radius, color, i % w, i / w, before, steps[4]),
{
    lemma_position_unique(w, i);
    lemma_row_bound(i, w, h);
    let (x, y) = (i % w, i / w);
    let r = clamp_to_half(corner_radius, w, h);
    let t = clamp_to_half(thickness, w, h);
    assert(2 * r <= w && 2 * r <= h);
    if (x < r || x >= w - r) && (y < r || y >= h - r) {
        assert(steps[0] == before);
        let (u, v) = (arc_distance(x, w, r), arc_distance(y, h, r));
        assert(ring_zone(w, h, thickness, corner_radius, x, y) == RingZone::Corner { u, v });
        if x < r && y < r {
            assert(steps[4] == steps[1]);
        } else if y < r {
            assert(steps[1] == before);
            assert(steps[4] == steps[2]);
        } else if x < r {
            assert(steps[2] == before);
            assert(steps[4] == steps[3]);
        } else {
            assert(steps[3] == before);
        }
        assert(corner_drawn(f, r, t, u, v, color, before, steps[4]));
    } else {
        assert(steps[4] == steps[0]);
    }
}

/// A position inside a buffer of `rows` rows lies in one of them.
pub proof fn lemma_row_bound(i: int, stride: int, rows: int)
    requires
        0 < stride,
        0 <= i < stride * rows,
    ensures
        i / stride < rows,
{
    assert(i / stride < rows) by (nonlinear_arith)
        requires
            0 < stride,
            0 <= i < stride * rows,
    ;
}

// ---------------------------------------------------------------------------
// Cached corner tiles
// ---------------------------------------------------------------------------

/// Coverage that a tile holds for the corner pixel at distance `(u, v)` from the
/// arc centre. The tile is the top-left corner, row by row.
pub open spec fn tile_alpha(tile: Seq<u8>, r: int, u: int, v: int) -> u8 {
    tile[(r - 1 - v) * r + (r - 1 - u)]
}

/// Whether `tile` holds, for every pixel of a corner square, what `f` gives.
pub open spec fn tile_covers<F: Fn(usize, usize, usize, usize, bool) -> u8>(
    f: F,
    r: int,
    t: int,
    tile: Seq<u8>,
) -> bool {
    &&& tile.len() == r * r
    &&& forall|u: int, v: int|
        0 <= u < r && 0 <= v < r ==> covers(f, r, t, u, v, #[trigger] tile_alpha(tile, r, u, v))
}

/// Whether a tile equals its own transpose.
pub open spec fn is_transposed(tile: Seq<u8>, r: int) -> bool {
    forall|u: int, v: int|
        0 <= u < r && 0 <= v < r ==> #[trigger] tile_alpha(tile, r, u, v) == tile_alpha(
            tile,
            r,
            v,
            u,
        )
}

/// Pixel `(x, y)`, which held `before`, once the ring was composited from a tile.
pub open spec fn composited(
    tile: Seq<u8>,
    width: int,
    height: int,
    thickness: int,
    corner_radius: int,
    color: u32,
    x: int,
    y: int,
    before: u32,
) -> u32 {
    match ring_zone(width, height, thickness, corner_radius, x, y) {
        RingZone::Corner { u, v } => covered(
            before,
            color,
            tile_alpha(tile, clamp_to_half(corner_radius, width, height), u, v),
        ),
        RingZone::Band => color,
        RingZone::Clear => before,
    }
}

/// Whether `after` is `before` with a ring composited into the `width × height`
/// image at its start, rows being `stride` pixels apart.
pub open spec fn ring_composited(
    tile: Seq<u8>,
    stride: int,
    width: int,
    height: int,
    thickness: int,
    corner_radius: int,
    color: u32,
    before: Seq<u32>,
    after: Seq<u32>,
) -> bool {
    &&& after.len() == before.len()
    &&& forall|i: int|
        0 <= i < before.len() ==> #[trigger] after[i] == if in_block(
            i,
            stride,
            0,
            width,
            0,
            height,
        ) {
            composited(
                tile,
                width,
                height,
                thickness,
                corner_radius,
                color,
                i % stride,
                i / stride,
                before[i],
            )
        } else {
            before[i]
        }
}

/// Of a corner radius only what is left after clamping matters.
pub proof fn lemma_radius_is_clamped(
    tile: Seq<u8>,
    width: int,
    height: int,
    thickness: int,
    radius: int,
    other: int,
    color: u32,
    x: int,
    y: int,
    before: u32,
)
    requires
        clamp_to_half(radius, width, height) == clamp_to_half(other, width, height),
    ensures
        composited(tile, width, height, thickness, radius, color, x, y, before) == composited(
            tile,
            width,
            height,
            thickness,
            other,
            color,
            x,
            y,
            before,
        ),
{
}

/// Corner radius in pixels of the outer arc: the window's own radius plus the
/// ring thickness, or none for square corners.
pub open spec fn corner_radius_of(pref: CornerPreference, thickness: int) -> int {
    match pref {
        CornerPreference::Square => 0,
        CornerPreference::Rounded => 8 + thickness,
        CornerPreference::RoundedSmall => 4 + thickness,
        CornerPreference::Default => 8 + thickness,
    }
}

/// Corner radius in pixels for a preference and a ring thickness.
pub fn corner_radius_px(pref: CornerPreference, thickness: usize) -> (res: usize)
    requires
        corner_radius_of(pref, thickness as int) <= usize::MAX,
    ensures
        res == corner_radius_of(pref, thickness as int),
{
    let window_radius: usize = match pref {
        CornerPreference::Square => 0,
        CornerPreference::Rounded => 8,
        CornerPreference::RoundedSmall => 4,
        CornerPreference::Default => 8,
    };
    if window_radius == 0 {
        0
    } else {
        window_radius + thickness
    }
}

/// Whether `c` is the least power of two that is at least `n` and at least one.
pub open spec fn is_capacity_for(c: int, n: int) -> bool {
    &&& exists|k: nat| c == #[trigger] pow2(k)
    &&& c >= n
    &&& forall|k: nat| #[trigger] pow2(k) >= n ==> c <= pow2(k)
}

/// Buffer capacity for a logical dimension: the next power of two, at least one, so
/// that a smooth resize reallocates only a logarithmic number of times.
#[must_use]
pub fn next_capacity(n: i32) -> (res: i32)
    requires
        n <= 0x4000_0000,
    ensures
        is_capacity_for(res as int, n as int),
        1 <= res <= 0x4000_0000,
        n >= 1 ==> n <= res < 2 * n,
{
    let mut c: i32 = 1;
    let ghost mut k: nat = 0;
    proof {
        lemma2_to64();
    }
    while c < n
        invariant
            n <= 0x4000_0000,
            1 <= c <= 0x4000_0000,
            k <= 30,
            c == pow2(k),
            pow2(30) == 0x4000_0000,
            k == 0 || pow2((k - 1) as nat) < n,
        decreases 0x4000_0000 - c,
    {
        proof {
            if k >= 30 {
                assert(k == 30);
            }
            lemma_pow2_unfold(k + 1);
            if k + 1 < 30 {
                lemma_pow2_strictly_increases(k + 1, 30);
            }
        }
        c = c * 2;
        proof {
            k = k + 1;
        }
    }
    proof {
        assert forall|j: nat| #[trigger] pow2(j) >= n implies c <= pow2(j) by {
            if j < k {
                if j < k - 1 {
                    lemma_pow2_strictly_increases(j, (k - 1) as nat);
                }
            } else if k < j {
                lemma_pow2_strictly_increases(k, j);
            }
        }
        if k > 0 {
            lemma_pow2_unfold(k);
        }
    }
    c
}

/// The capacity for a size that is a capacity already is that size.
pub proof fn capacity_of_a_capacity_is_itself(c: int, n: int, d: int)
    requires
        is_capacity_for(c, n),
        is_capacity_for(d, c),
    ensures
        d == c,
{
    let k = choose|k: nat| c == #[trigger] pow2(k);
    assert(pow2(k) >= c);
}

/// Capacity grows with the request.
pub proof fn capacity_is_monotonic(c: int, n: int, d: int, m: int)
    requires
        is_capacity_for(c, n),
        is_capacity_for(d, m),
        n <= m,
    ensures
        c <= d,
{
    let k = choose|k: nat| d == #[trigger] pow2(k);
    assert(pow2(k) >= n);
}

/// Sizes up to a power of two share only as many capacities as there are smaller powers: a resize
/// over any range reallocates a logarithmic number of times.
pub proof fn capacities_are_few(c: int, n: int, k: nat)
    requires
        is_capacity_for(c, n),
        n <= pow2(k),
    ensures
        exists|j: nat| j <= k && c == #[trigger] pow2(j),
{
    let j = choose|j: nat| c == #[trigger] pow2(j);
    if k < j {
        lemma_pow2_strictly_increases(k, j);
    }
}

/// Renders the coverage tile of the top-left corner for an effective radius and
/// thickness; empty for a square ring.
#[must_use]
pub fn render_corner_coverage<F: Fn(usize, usize, usize, usize, bool) -> u8>(
    radius: usize,
    thickness: usize,
    f: &F,
) -> (res: Vec<u8>)
    requires
        radius * radius <= usize::MAX,
        forall|args: (usize, usize, usize, usize, bool)| f.requires(args),
    ensures
        tile_covers(*f, radius as int, thickness as int, res@),
        is_transposed(res@, radius as int),
{
    let mut coverage: Vec<u8> = Vec::new();
    let r: usize = radius;
    let t: usize = if thickness <= r { thickness } else { r };
    let inner_r: usize = r - t;
    let mut py: usize = 0;
    while py < r
        invariant
            py <= r,
            r == radius,
            t == if thickness <= r { thickness } else { r },
            inner_r == r - t,
            r * r <= usize::MAX,
            coverage@.len() == py * r,
            forall|args: (usize, usize, usize, usize, bool)| f.requires(args),
            forall|u: int, v: int|
                0 <= u < r && r - py <= v < r ==> covers(
                    *f,
                    r as int,
                    thickness as int,
                    u,
                    v,
                    #[trigger] tile_alpha(coverage@, r as int, u, v),
                ),
            forall|u: int, v: int|
                0 <= v < u < r && r - py <= v ==> #[trigger] tile_alpha(coverage@, r as int, u, v)
                    == tile_alpha(coverage@, r as int, v, u),
        decreases r - py,
    {
        let mut px: usize = 0;
        while px < r
            invariant
                py < r,
                px <= r,
                r == radius,
                t == if thickness <= r { thickness } else { r },
                inner_r == r - t,
                r * r <= usize::MAX,
                coverage@.len() == py * r + px,
                forall|args: (usize, usize, usize, usize, bool)| f.requires(args),
                forall|u: int, v: int|
                    0 <= u < r && 0 <= v < r && (r - py <= v || (v == r - 1 - py && u >= r - px))
                        ==> covers(
                        *f,
                        r as int,
                        thickness as int,
                        u,
                        v,
                        #[trigger] tile_alpha(coverage@, r as int, u, v),
                    ),
                forall|u: int, v: int|
                    0 <= v < u < r && (r - py <= v || (v == r - 1 - py && u >= r - px))
                        ==> #[trigger] tile_alpha(coverage@, r as int, u, v) == tile_alpha(
                        coverage@,
                        r as int,
                        v,
                        u,
                    ),
            decreases r - px,
        {
            let ghost before = coverage@;
            let alpha: u8 = if px < py {
                proof {
                    lemma_row_end(r as int, px as int, py as int);
                    lemma_row_end(r as int, py as int, r as int);
                    assert(covers(
                        *f,
                        r as int,
                        thickness as int,
                        r - 1 - py,
                        r - 1 - px,
                        tile_alpha(coverage@, r as int, r - 1 - py, r - 1 - px),
                    ));
                }
                coverage[px * r + py]
            } else {
                let in_inner_corner: bool = px >= t && py >= t;
                corner_pixel_alpha(px, py, r, r, r, inner_r, in_inner_corner, f)
            };
            coverage.push(alpha);
            proof {
                let rr = r as int;
                assert forall|u: int, v: int|
                    0 <= u < rr && 0 <= v < rr && (rr - py <= v || (v == rr - 1 - py && u >= rr - px
                        - 1)) implies covers(
                    *f,
                    rr,
                    thickness as int,
                    u,
                    v,
                    #[trigger] tile_alpha(coverage@, rr, u, v),
                ) by {
                    let i = (rr - 1 - v) * rr + (rr - 1 - u);
                    lemma_position(rr, rr - 1 - u, rr - 1 - v);
                    if rr - py <= v {
                        lemma_row_end(rr, rr - 1 - v, py as int);
                        assert(i < before.len());
                        assert(tile_alpha(before, rr, u, v) == tile_alpha(coverage@, rr, u, v));
                    } else if u >= rr - px {
                        assert(i < before.len());
                        assert(tile_alpha(before, rr, u, v) == tile_alpha(coverage@, rr, u, v));
                    } else {
                        assert(i == before.len());
                    }
                }
                assert forall|u: int, v: int|
                    0 <= v < u < rr && (rr - py <= v || (v == rr - 1 - py && u >= rr - px
                        - 1)) implies #[trigger] tile_alpha(coverage@, rr, u, v) == tile_alpha(
                    coverage@,
                    rr,
                    v,
                    u,
                ) by {
                    let i = (rr - 1 - v) * rr + (rr - 1 - u);
                    let j = (rr - 1 - u) * rr + (rr - 1 - v);
                    lemma_position(rr, rr - 1 - u, rr - 1 - v);
                    lemma_position(rr, rr - 1 - v, rr - 1 - u);
                    lemma_row_end(rr, rr - 1 - u, py as int);
                    assert(j < before.len());
                    assert(tile_alpha(before, rr, v, u) == tile_alpha(coverage@, rr, v, u));
                    if rr - py <= v {
                        lemma_row_end(rr, rr - 1 - v, py as int);
                        assert(i < before.len());
                        assert(tile_alpha(before, rr, u, v) == tile_alpha(coverage@, rr, u, v));
                    } else if u >= rr - px {
                        assert(i < before.len());
                        assert(tile_alpha(before, rr, u, v) == tile_alpha(coverage@, rr, u, v));
                    } else {
                        assert(i == before.len());
                    }
                }
            }
            px = px + 1;
        }
        proof {
            lemma_row_end(r as int, py as int, r as int);
        }
        py = py + 1;
    }
    coverage
}

/// Placement of one corner tile: where its square starts, and whether the tile is
/// mirrored in either axis.
#[derive(Debug, Clone, Copy, PartialEq, Eq, Structural)]
pub struct CornerPos {
    /// Left column of the square.
    pub ox: usize,
    /// Top row of the square.
    pub oy: usize,
    /// Whether the tile is mirrored left to right.
    pub flip_x: bool,
    /// Whether the tile is mirrored top to bottom.
    pub flip_y: bool,
}

/// Geometry of a pixel buffer: row length and the size of the image in it.
#[derive(Debug, Clone, Copy, PartialEq, Eq, Structural)]
pub struct BufferLayout {
    /// Row length of the buffer in pixels.
    pub stride: usize,
    /// Image width in pixels.
    pub width: usize,
    /// Image height in pixels.
    pub height: usize,
}

/// A position after the first `rows` rows of a tile, and `cols` pixels of the next
/// one, were blitted.
pub open spec fn blitted(
    tile: Seq<u8>,
    stride: int,
    r: int,
    pos: CornerPos,
    rows: int,
    cols: int,
    color: u32,
    i: int,
    before: u32,
) -> u32 {
    let x = i % stride - pos.ox;
    let y = i / stride - pos.oy;
    let tx = if pos.flip_x { r - 1 - x } else { x };
    let ty = if pos.flip_y { r - 1 - y } else { y };
    if 0 <= tx < r && 0 <= ty && (ty < rows || (ty == rows && tx < cols)) {
        covered(before, color, tile[ty * r + tx])
    } else {
        before
    }
}

/// Blits one corner tile: each pixel of the square is covered as the tile says.
pub fn blit_corner(
    pixels: &mut [u32],
    stride: usize,
    coverage: &[u8],
    r: usize,
    rgb: u32,
    pos: CornerPos,
)
    requires
        pos.ox + r <= stride,
        (pos.oy + r) * stride <= old(pixels)@.len(),
        r * r <= coverage@.len(),
    ensures
        final(pixels)@.len() == old(pixels)@.len(),
        forall|i: int|
            0 <= i < old(pixels)@.len() ==> #[trigger] final(pixels)@[i] == blitted(
                coverage@,
                stride as int,
                r as int,
                pos,
                r as int,
                0,
                rgb,
                i,
                old(pixels)@[i],
            ),
{
    let len: usize = pixels.len();
    let tile_len: usize = coverage.len();
    let mut ty: usize = 0;
    while ty < r
        invariant
            ty <= r,
            len == pixels@.len(),
            tile_len == coverage@.len(),
            pos.ox + r <= stride,
            (pos.oy + r) * stride <= pixels@.len(),
            r * r <= coverage@.len(),
            pixels@.len() == old(pixels)@.len(),
            forall|i: int|
                0 <= i < pixels@.len() ==> #[trigger] pixels@[i] == blitted(
                    coverage@,
                    stride as int,
                    r as int,
                    pos,
                    ty as int,
                    0,
                    rgb,
                    i,
                    old(pixels)@[i],
                ),
        decreases r - ty,
    {
        proof {
            assert(pos.oy + r <= (pos.oy + r) * stride) by (nonlinear_arith)
                requires
                    1 <= stride,
                    0 <= pos.oy,
                    0 <= r,
            ;
            lemma_row_end(r as int, ty as int, r as int);
        }
        let y: usize = if pos.flip_y { pos.oy + (r - 1 - ty) } else { pos.oy + ty };
        proof {
            lemma_row_end(stride as int, y as int, pos.oy + r);
        }
        let mut tx: usize = 0;
        while tx < r
            invariant
                ty < r,
                tx <= r,
                len == pixels@.len(),
                tile_len == coverage@.len(),
                y == if pos.flip_y { pos.oy + (r - 1 - ty) } else { pos.oy + ty },
                0 <= y * stride,
                y * stride + stride <= pixels@.len(),
                0 <= ty * r,
                ty * r + r <= coverage@.len(),
                pos.ox + r <= stride,
                (pos.oy + r) * stride <= pixels@.len(),
                r * r <= coverage@.len(),
                pixels@.len() == old(pixels)@.len(),
                forall|i: int|
                    0 <= i < pixels@.len() ==> #[trigger] pixels@[i] == blitted(
                        coverage@,
                        stride as int,
                        r as int,
                        pos,
                        ty as int,
                        tx as int,
                        rgb,
                        i,
                        old(pixels)@[i],
                    ),
            decreases r - tx,
        {
            let cov: u8 = coverage[ty * r + tx];
            let ghost before = pixels@;
            let x: usize = if pos.flip_x { pos.ox + (r - 1 - tx) } else { pos.ox + tx };
            proof {
                lemma_position(stride as int, x as int, y as int);
            }
            if cov > 0 {
                pixels[y * stride + x] = pack_premultiplied(rgb, cov);
            }
            proof {
                assert forall|i: int| 0 <= i < pixels@.len() implies #[trigger] pixels@[i]
                    == blitted(
                    coverage@,
                    stride as int,
                    r as int,
                    pos,
                    ty as int,
                    tx + 1,
                    rgb,
                    i,
                    old(pixels)@[i],
                ) by {
                    lemma_position_unique(stride as int, i);
                    assert(before[i] == blitted(
                        coverage@,
                        stride as int,
                        r as int,
                        pos,
                        ty as int,
                        tx as int,
                        rgb,
                        i,
                        old(pixels)@[i],
                    ));
                }
            }
            tx = tx + 1;
        }
        ty = ty + 1;
    }
}

/// Composites a ring from a cached corner tile and four solid edge fills.
///
/// `corner_coverage` is the tile for the clamped radius and thickness; it is not
/// read when the clamped radius is zero. Nothing outside the `width × height`
/// image is written.
pub fn composite_ring(
    pixels: &mut [u32],
    layout: BufferLayout,
    thickness: usize,
    corner_radius: usize,
    corner_coverage: &[u8],
    color: u32,
)
    requires
        layout.width <= layout.stride,
        layout.stride * layout.height <= old(pixels)@.len(),
        ({
            let r = clamp_to_half(corner_radius as int, layout.width as int, layout.height as int);
            thickness > 0 ==> r * r <= corner_coverage@.len()
        }),
    ensures
        ring_composited(
            corner_coverage@,
            layout.stride as int,
            layout.width as int,
            layout.height as int,
            thickness as int,
            corner_radius as int,
            color,
            old(pixels)@,
            final(pixels)@,
        ),
{
    let stride: usize = layout.stride;
    let width: usize = layout.width;
    let height: usize = layout.height;
    if width == 0 || height == 0 {
        return ;
    }
    let half: usize = if width <= height { width / 2 } else { height / 2 };
    if thickness == 0 {
        return ;
    }
    let t: usize = if thickness <= half { thickness } else { half };
    let r: usize = if corner_radius <= half { corner_radius } else { half };
    let band: usize = band_width(thickness, width, height);
    fill_bands(pixels, stride, width, height, r, band, color);
    let ghost banded = pixels@;
    let ghost mut one = pixels@;
    let ghost mut two = pixels@;
    let ghost mut three = pixels@;
    let nw: CornerPos = CornerPos { ox: 0, oy: 0, flip_x: false, flip_y: false };
    let ne: CornerPos = CornerPos { ox: width - r, oy: 0, flip_x: true, flip_y: false };
    let sw: CornerPos = CornerPos { ox: 0, oy: height - r, flip_x: false, flip_y: true };
    let se: CornerPos = CornerPos { ox: width - r, oy: height - r, flip_x: true, flip_y: true };
    if r > 0 {
        proof {
            assert(stride * height == height * stride) by (nonlinear_arith);
            lemma_row_end(stride as int, r - 1, height as int);
        }
        blit_corner(pixels, stride, corner_coverage, r, color, nw);
        proof {
            one = pixels@;
        }
        blit_corner(pixels, stride, corner_coverage, r, color, ne);
        proof {
            two = pixels@;
        }
        blit_corner(pixels, stride, corner_coverage, r, color, sw);
        proof {
            three = pixels@;
        }
        blit_corner(pixels, stride, corner_coverage, r, color, se);
    }
    proof {
        let (s, w, h) = (stride as int, width as int, height as int);
        assert forall|i: int| 0 <= i < pixels@.len() implies #[trigger] pixels@[i] == if in_block(
            i,
            s,
            0,
            w,
            0,
            h,
        ) {
            composited(
                corner_coverage@,
                w,
                h,
                thickness as int,
                corner_radius as int,
                color,
                i % s,
                i / s,
                old(pixels)@[i],
            )
        } else {
            old(pixels)@[i]
        } by {
            lemma_composited(
                corner_coverage@,
                s,
                w,
                h,
                thickness as int,
                corner_radius as int,
                color,
                i,
                old(pixels)@[i],
                seq![banded[i], one[i], two[i], three[i], pixels@[i]],
                seq![nw, ne, sw, se],
            );
        }
    }
}

/// One position through all steps of compositing a ring: after the bands and
/// after each of the four blits.
proof fn lemma_composited(
    tile: Seq<u8>,
    s: int,
    w: int,
    h: int,
    thickness: int,
    corner_radius: int,
    color: u32,
    i: int,
    before: u32,
    steps: Seq<u32>,
    pos: Seq<CornerPos>,
)
    requires
        0 < w <= s,
        0 < h,
        0 <= i,
        0 < thickness,
        0 <= corner_radius,
        steps.len() == 5,
        pos.len() == 4,
        ({
            let r = clamp_to_half(corner_radius, w, h);
            &&& steps[0] == banded_pixel(i, s, w, h, r, clamp_to_middle(thickness, w, h), before, color)
            &&& if r > 0 {
                &&& pos[0] == CornerPos { ox: 0, oy: 0, flip_x: false, flip_y: false }
                &&& pos[1].ox == w - r && pos[1].oy == 0 && pos[1].flip_x && !pos[1].flip_y
                &&& pos[2].ox == 0 && pos[2].oy == h - r && !pos[2].flip_x && pos[2].flip_y
                &&& pos[3].ox == w - r && pos[3].oy == h - r && pos[3].flip_x && pos[3].flip_y
                &&& steps[1] == blitted(tile, s, r, pos[0], r, 0, color, i, steps[0])
                &&& steps[2] == blitted(tile, s, r, pos[1], r, 0, color, i, steps[1])
                &&& steps[3] == blitted(tile, s, r, pos[2], r, 0, color, i, steps[2])
                &&& steps[4] == blitted(tile, s, r, pos[3], r, 0, color, i, steps[3])
            } else {
                steps[4] == steps[0]
            }
        }),
    ensures
        steps[4] == if in_block(i, s, 0, w, 0, h) {
            composited(tile, w, h, thickness, corner_radius, color, i % s, i / s, before)
        } else {
            before
        },
{
    lemma_position_unique(s, i);
    let (x, y) = (i % s, i / s);
    let r = clamp_to_half(corner_radius, w, h);
    assert(2 * r <= w && 2 * r <= h);
    if in_block(i, s, 0, w, 0, h) && (x < r || x >= w - r) && (y < r || y >= h - r) {
        assert(steps[0] == before);
        let (u, v) = (arc_distance(x, w, r), arc_distance(y, h, r));
        assert(ring_zone(w, h, thickness, corner_radius, x, y) == RingZone::Corner { u, v });
        if x < r && y < r {
            assert(steps[4] == steps[1]);
        } else if y < r {
            assert(steps[1] == before);
            assert(steps[4] == steps[2]);
        } else if x < r {
            assert(steps[2] == before);
            assert(steps[4] == steps[3]);
        } else {
            assert(steps[3] == before);
        }
        assert(steps[4] == covered(before, color, tile_alpha(tile, r, u, v)));
    } else {
        assert(steps[4] == steps[0]);
    }
}

// ---------------------------------------------------------------------------
// What holds of every ring
// ---------------------------------------------------------------------------

/// A pixel that was drawn with a coverage function is what compositing makes of it from the tile of
/// that function.
pub proof fn lemma_composited_is_drawn<F: Fn(usize, usize, usize, usize, bool) -> u8>(
    f: F,
    tile: Seq<u8>,
    width: int,
    height: int,
    thickness: int,
    corner_radius: int,
    color: u32,
    x: int,
    y: int,
    before: u32,
    after: u32,
)
    requires
        is_coverage_function(f),
        0 <= thickness,
        0 <= corner_radius,
        tile_covers(
            f,
            clamp_to_half(corner_radius, width, height),
            clamp_to_half(thickness, width, height),
            tile,
        ),
        0 <= x < width,
        0 <= y < height,
        drawn(f, width, height, thickness, corner_radius, color, x, y, before, after),
    ensures
        after == composited(
            tile,
            width,
            height,
            thickness,
            corner_radius,
            color,
            x,
            y,
            before,
        ),
{
    let r = clamp_to_half(corner_radius, width, height);
    let t = clamp_to_half(thickness, width, height);
    match ring_zone(width, height, thickness, corner_radius, x, y) {
        RingZone::Corner { u, v } => {
            assert(corner_drawn(f, r, t, u, v, color, before, after));
            let a = choose|a: u8| #[trigger]
                covers(f, r, t, u, v, a) && after == covered(before, color, a);
            assert(covers(f, r, t, u, v, tile_alpha(tile, r, u, v)));
            assert(a == tile_alpha(tile, r, u, v));
        },
        _ => {},
    }
}

/// Compositing from a tile gives, pixel for pixel, what direct rasterising gives
/// for the same arguments, in a buffer of any row length.
pub proof fn compositing_equals_rasterising<F: Fn(usize, usize, usize, usize, bool) -> u8>(
    f: F,
    tile: Seq<u8>,
    stride: int,
    width: int,
    height: int,
    thickness: int,
    corner_radius: int,
    color: u32,
    tight_before: Seq<u32>,
    tight_after: Seq<u32>,
    before: Seq<u32>,
    after: Seq<u32>,
    x: int,
    y: int,
)
    requires
        is_coverage_function(f),
        0 <= thickness,
        0 <= corner_radius,
        width <= stride,
        tight_before.len() == width * height,
        stride * height <= before.len(),
        tile_covers(
            f,
            clamp_to_half(corner_radius, width, height),
            clamp_to_half(thickness, width, height),
            tile,
        ),
        ring_drawn(
            f,
            width,
            height,
            thickness,
            corner_radius,
            color,
            tight_before,
            tight_after,
        ),
        ring_composited(
            tile,
            stride,
            width,
            height,
            thickness,
            corner_radius,
            color,
            before,
            after,
        ),
        0 <= x < width,
        0 <= y < height,
        before[y * stride + x] == tight_before[y * width + x],
    ensures
        after[y * stride + x] == tight_after[y * width + x],
{
    lemma_position(stride, x, y);
    lemma_position(width, x, y);
    lemma_row_end(stride, y, height);
    lemma_row_end(width, y, height);
    assert(stride * height == height * stride) by (nonlinear_arith);
    assert(width * height == height * width) by (nonlinear_arith);
    let (i, j) = (y * stride + x, y * width + x);
    assert(in_block(i, stride, 0, width, 0, height));
    assert(after[i] == composited(
        tile,
        width,
        height,
        thickness,
        corner_radius,
        color,
        x,
        y,
        before[i],
    ));
    assert(drawn(
        f,
        width,
        height,
        thickness,
        corner_radius,
        color,
        x,
        y,
        tight_before[j],
        tight_after[j],
    ));
    lemma_composited_is_drawn(
        f,
        tile,
        width,
        height,
        thickness,
        corner_radius,
        color,
        x,
        y,
        tight_before[j],
        tight_after[j],
    );
}

/// In a tight buffer the two ways of drawing a ring give equal buffers.
pub proof fn tight_compositing_equals_rasterising<
    F: Fn(usize, usize, usize, usize, bool) -> u8,
>(
    f: F,
    tile: Seq<u8>,
    width: int,
    height: int,
    thickness: int,
    corner_radius: int,
    color: u32,
    before: Seq<u32>,
    drawn_after: Seq<u32>,
    composited_after: Seq<u32>,
)
    requires
        is_coverage_function(f),
        0 <= width,
        0 <= height,
        0 <= thickness,
        0 <= corner_radius,
        before.len() == width * height,
        tile_covers(
            f,
            clamp_to_half(corner_radius, width, height),
            clamp_to_half(thickness, width, height),
            tile,
        ),
        ring_drawn(f, width, height, thickness, corner_radius, color, before, drawn_after),
        ring_composited(
            tile,
            width,
            width,
            height,
            thickness,
            corner_radius,
            color,
            before,
            composited_after,
        ),
    ensures
        drawn_after == composited_after,
{
    assert forall|i: int| 0 <= i < before.len() implies drawn_after[i] == composited_after[i] by {
        assert(0 < width) by (nonlinear_arith)
            requires
                0 <= width,
                0 <= height,
                0 < width * height,
        ;
        lemma_position_unique(width, i);
        lemma_row_bound(i, width, height);
        compositing_equals_rasterising(
            f,
            tile,
            width,
            width,
            height,
            thickness,
            corner_radius,
            color,
            before,
            drawn_after,
            before,
            composited_after,
            i % width,
            i / width,
        );
    }
    assert(drawn_after =~= composited_after);
}

/// Whichever tile a deterministic coverage function gives for a radius and a thickness, it equals
/// its own transpose.
pub proof fn tile_is_transpose_symmetric<F: Fn(usize, usize, usize, usize, bool) -> u8>(
    f: F,
    tile: Seq<u8>,
    r: int,
    t: int,
)
    requires
        is_coverage_function(f),
        tile_covers(f, r, t, tile),
    ensures
        is_transposed(tile, r),
{
    assert forall|u: int, v: int| 0 <= u < r && 0 <= v < r implies #[trigger] tile_alpha(
        tile,
        r,
        u,
        v,
    ) == tile_alpha(tile, r, v, u) by {
        assert(covers(f, r, t, u, v, tile_alpha(tile, r, u, v)));
        assert(covers(f, r, t, v, u, tile_alpha(tile, r, v, u)));
    }
}

/// A tile does not depend on the size of the window: any two tiles for the same radius and
/// thickness are equal.
pub proof fn tiles_are_determined_by_radius_and_thickness<
    F: Fn(usize, usize, usize, usize, bool) -> u8,
>(f: F, r: int, t: int, first: Seq<u8>, second: Seq<u8>)
    requires
        is_coverage_function(f),
        0 <= r,
        tile_covers(f, r, t, first),
        tile_covers(f, r, t, second),
    ensures
        first == second,
{
    assert forall|i: int| 0 <= i < first.len() implies first[i] == second[i] by {
        if r == 0 {
            assert(r * r == 0) by (nonlinear_arith)
                requires
                    r == 0,
            ;
        } else {
            lemma_position_unique(r, i);
            lemma_row_bound(i, r, r);
            let (u, v) = (r - 1 - i % r, r - 1 - i / r);
            assert(covers(f, r, t, u, v, tile_alpha(first, r, u, v)));
            assert(covers(f, r, t, u, v, tile_alpha(second, r, u, v)));
        }
    }
    assert(first =~= second);
}

/// A thickness beyond the radius gives the tile of a thickness equal to it: without an
/// inner arc.
pub proof fn tile_thickness_clamps_to_the_radius<
    F: Fn(usize, usize, usize, usize, bool) -> u8,
>(f: F, r: int, t: int, tile: Seq<u8>)
    requires
        0 <= r <= t,
    ensures
        tile_covers(f, r, t, tile) == tile_covers(f, r, r, tile),
{
    if tile_covers(f, r, t, tile) {
        assert forall|u: int, v: int| 0 <= u < r && 0 <= v < r implies covers(
            f,
            r,
            r,
            u,
            v,
            #[trigger] tile_alpha(tile, r, u, v),
        ) by {
            assert(covers(f, r, t, u, v, tile_alpha(tile, r, u, v)));
        }
    }
    if tile_covers(f, r, r, tile) {
        assert forall|u: int, v: int| 0 <= u < r && 0 <= v < r implies covers(
            f,
            r,
            t,
            u,
            v,
            #[trigger] tile_alpha(tile, r, u, v),
        ) by {
            assert(covers(f, r, r, u, v, tile_alpha(tile, r, u, v)));
        }
    }
}

/// A ring is its own mirror image, left to right and top to bottom.
pub proof fn ring_is_symmetric(
    width: int,
    height: int,
    thickness: int,
    corner_radius: int,
    x: int,
    y: int,
)
    requires
        0 <= x < width,
        0 <= y < height,
        0 <= thickness,
        0 <= corner_radius,
    ensures
        ring_zone(width, height, thickness, corner_radius, width - 1 - x, y) == ring_zone(
            width,
            height,
            thickness,
            corner_radius,
            x,
            y,
        ),
        ring_zone(width, height, thickness, corner_radius, x, height - 1 - y) == ring_zone(
            width,
            height,
            thickness,
            corner_radius,
            x,
            y,
        ),
{
}

/// Drawn on a blank image, a ring gives mirrored pixels equal values.
pub proof fn blank_ring_pixels_are_symmetric<F: Fn(usize, usize, usize, usize, bool) -> u8>(
    f: F,
    width: int,
    height: int,
    thickness: int,
    corner_radius: int,
    color: u32,
    before: Seq<u32>,
    after: Seq<u32>,
    x: int,
    y: int,
)
    requires
        is_coverage_function(f),
        0 <= thickness,
        0 <= corner_radius,
        before.len() == width * height,
        forall|i: int| 0 <= i < before.len() ==> before[i] == 0,
        ring_drawn(f, width, height, thickness, corner_radius, color, before, after),
        0 <= x < width,
        0 <= y < height,
    ensures
        after[y * width + (width - 1 - x)] == after[y * width + x],
        after[(height - 1 - y) * width + x] == after[y * width + x],
{
    lemma_drawn_pair(f, width, height, thickness, corner_radius, color, before, after, x, y, width
        - 1 - x, y);
    lemma_drawn_pair(f, width, height, thickness, corner_radius, color, before, after, x, y, x,
        height - 1 - y);
}

/// Two pixels of a blank image in the same zone end up equal.
proof fn lemma_drawn_pair<F: Fn(usize, usize, usize, usize, bool) -> u8>(
    f: F,
    width: int,
    height: int,
    thickness: int,
    corner_radius: int,
    color: u32,
    before: Seq<u32>,
    after: Seq<u32>,
    x: int,
    y: int,
    x2: int,
    y2: int,
)
    requires
        is_coverage_function(f),
        before.len() == width * height,
        forall|i: int| 0 <= i < before.len() ==> before[i] == 0,
        ring_drawn(f, width, height, thickness, corner_radius, color, before, after),
        0 <= x < width,
        0 <= y < height,
        0 <= x2 < width,
        0 <= y2 < height,
        ring_zone(width, height, thickness, corner_radius, x, y) == ring_zone(
            width,
            height,
            thickness,
            corner_radius,
            x2,
            y2,
        ),
    ensures
        after[y2 * width + x2] == after[y * width + x],
{
    lemma_position(width, x, y);
    lemma_position(width, x2, y2);
    lemma_row_end(width, y, height);
    lemma_row_end(width, y2, height);
    assert(width * height == height * width) by (nonlinear_arith);
    let (i, j) = (y * width + x, y2 * width + x2);
    let r = clamp_to_half(corner_radius, width, height);
    let t = clamp_to_half(thickness, width, height);
    assert(drawn(f, width, height, thickness, corner_radius, color, x, y, 0, after[i]));
    assert(drawn(f, width, height, thickness, corner_radius, color, x2, y2, 0, after[j]));
    match ring_zone(width, height, thickness, corner_radius, x, y) {
        RingZone::Corner { u, v } => {
            assert(corner_drawn(f, r, t, u, v, color, 0, after[i]));
            assert(corner_drawn(f, r, t, u, v, color, 0, after[j]));
        },
        _ => {},
    }
}

/// A radius beyond half of the shorter side acts as that half.
pub proof fn oversized_radius_is_clamped(
    width: int,
    height: int,
    thickness: int,
    corner_radius: int,
    x: int,
    y: int,
)
    ensures
        ring_zone(width, height, thickness, corner_radius, x, y) == ring_zone(
            width,
            height,
            thickness,
            clamp_to_half(corner_radius, width, height),
            x,
            y,
        ),
{
}

/// A thickness of half of the shorter side or more fills the whole image: every pixel is in a
/// band or a corner square.
pub proof fn oversized_thickness_fills_the_image(
    width: int,
    height: int,
    thickness: int,
    corner_radius: int,
    x: int,
    y: int,
)
    requires
        0 <= x < width,
        0 <= y < height,
        2 * thickness >= if width <= height { width } else { height },
    ensures
        !(ring_zone(width, height, thickness, corner_radius, x, y) is Clear),
{
}

/// Without a radius there are no corner squares: the ring is the set of pixels
/// closer than the thickness to an edge.
pub proof fn square_ring_has_no_corners(width: int, height: int, thickness: int, x: int, y: int)
    requires
        0 <= x < width,
        0 <= y < height,
        0 <= thickness,
    ensures
        ring_zone(width, height, thickness, 0, x, y) == if x < thickness || x >= width - thickness
            || y < thickness || y >= height - thickness {
            RingZone::Band
        } else {
            RingZone::Clear
        },
{
}

/// Recolouring a ring that was composited on a blank image gives the ring that
/// the new colour would have given.
pub proof fn recolored_ring_equals_ring_in_the_new_color(
    tile: Seq<u8>,
    width: int,
    height: int,
    thickness: int,
    corner_radius: int,
    first: Color,
    second: Color,
    x: int,
    y: int,
)
    ensures
        recolored(
            composited(
                tile,
                width,
                height,
                thickness,
                corner_radius,
                opaque_word(first),
                x,
                y,
                0,
            ),
            second,
        ) == composited(
            tile,
            width,
            height,
            thickness,
            corner_radius,
            opaque_word(second),
            x,
            y,
            0,
        ),
{
    full_coverage_is_the_opaque_word(first, 255);
    full_coverage_is_the_opaque_word(second, 255);
    recolor_equals_rendering_in_the_new_color(opaque_word(first), 255, second);
    match ring_zone(width, height, thickness, corner_radius, x, y) {
        RingZone::Corner { u, v } => {
            let a = tile_alpha(tile, clamp_to_half(corner_radius, width, height), u, v);
            recolor_equals_rendering_in_the_new_color(opaque_word(first), a, second);
        },
        _ => {},
    }
}

} // verus!
