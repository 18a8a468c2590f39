//! What a border ring looks like: where it is opaque, where it leaves the window free, and what
//! its corners ask of the coverage function.
use crate::borders::pixel::{full_alpha_keeps_an_opaque_word, opaque_word, premultiplied};
use crate::borders::raster::{
    blitted, composited, corner_drawn, corner_radius_of, covered, covers, drawn, in_block,
    is_capacity_for, lemma_position, lemma_row_end, ring_composited, ring_drawn, ring_zone,
    tile_alpha, tile_covers, CornerPos, RingZone,
};
use crate::borders::style::CornerPreference;
use crate::borders::surface::CachedSurface;
use vstd::arithmetic::power2::lemma_pow2_unfold;
use vstd::arithmetic::power2::pow2;
use vstd::prelude::*;

verus! {

/// How many pixels lie between coordinate `p` and the nearer end of a side of length `n`.
pub open spec fn gap(p: int, n: int) -> int {
    if p <= n - 1 - p { p } else { n - 1 - p }
}

/// The smaller of two numbers.
pub open spec fn least(a: int, b: int) -> int {
    if a <= b { a } else { b }
}

/// The greater of two numbers.
pub open spec fn most(a: int, b: int) -> int {
    if a <= b { b } else { a }
}

/// Whether a coverage function measures areas, as far as whole pixels go. The pixel at distance
/// `(u, v)` reaches from there to `(u + 1, v + 1)`. It is not covered where it lies outside the
/// outer circle, nor where it lies in the inner corner and inside the inner circle, and covered
/// wholly where it lies between the two.
pub open spec fn measures_area<F: Fn(usize, usize, usize, usize, bool) -> u8>(f: F) -> bool {
    forall|u: usize, v: usize, outer: usize, inner: usize, in_inner: bool, a: u8|
        #[trigger] f.ensures((u, v, outer, inner, in_inner), a) ==> {
            &&& u * u + v * v >= outer * outer ==> a == 0
            &&& in_inner && (u + 1) * (u + 1) + (v + 1) * (v + 1) <= inner * inner ==> a == 0
            &&& (u + 1) * (u + 1) + (v + 1) * (v + 1) <= outer * outer && (!in_inner || u * u + v
                * v >= inner * inner) ==> a == 255
        }
}

/// The question that a corner pixel puts to the coverage function, and its answer `a`. The pixel
/// lies `mx` and `my` pixels from the nearer edges, in a corner of radius `r` of a ring that is `t`
/// pixels thick. The arc is centred `r` pixels from both edges. The inner arc has the radius
/// `r - t`, and counts for pixels that are at least `t` from both edges.
pub open spec fn answers_corner<F: Fn(usize, usize, usize, usize, bool) -> u8>(
    f: F,
    r: int,
    t: int,
    mx: int,
    my: int,
    a: u8,
) -> bool {
    f.ensures(
        (
            (r - 1 - most(mx, my)) as usize,
            (r - 1 - least(mx, my)) as usize,
            r as usize,
            most(r - t, 0) as usize,
            mx >= t && my >= t,
        ),
        a,
    )
}

proof fn lemma_corner_question<F: Fn(usize, usize, usize, usize, bool) -> u8>(
    f: F,
    r: int,
    t: int,
    mx: int,
    my: int,
    a: u8,
)
    requires
        0 <= mx < r,
        0 <= my < r,
    ensures
        covers(f, r, t, r - 1 - mx, r - 1 - my, a) == answers_corner(f, r, t, mx, my, a),
{
}

/// Every pixel of a ring that is drawn directly. A corner pixel asks the coverage function once
/// and takes the colour to the degree that it answers; a pixel outside the corner squares that is
/// closer to an edge than the thickness takes the colour; every other pixel stays.
pub proof fn drawn_ring_pixel_by_pixel<F: Fn(usize, usize, usize, usize, bool) -> u8>(
    f: F,
    w: int,
    h: int,
    thickness: int,
    corner_radius: int,
    color: u32,
    before: Seq<u32>,
    after: Seq<u32>,
    x: int,
    y: int,
)
    requires
        0 <= x < w,
        0 <= y < h,
        0 <= thickness,
        0 <= corner_radius,
        before.len() == w * h,
        ring_drawn(f, w, h, thickness, corner_radius, color, before, after),
    ensures
        ({
            let half = least(w, h) / 2;
            let r = least(corner_radius, half);
            let t = least(thickness, half);
            let (mx, my) = (gap(x, w), gap(y, h));
            let (was, is) = (before[y * w + x], after[y * w + x]);
            if thickness == 0 {
                is == was
            } else if mx < r && my < r {
                exists|a: u8| #[trigger]
                    answers_corner(f, r, t, mx, my, a) && is == if a == 0 {
                        was
                    } else {
                        premultiplied(color, a)
                    }
            } else if mx < thickness || my < thickness {
                is == color
            } else {
                is == was
            }
        }),
{
    let half = least(w, h) / 2;
    let r = least(corner_radius, half);
    let t = least(thickness, half);
    let (mx, my) = (gap(x, w), gap(y, h));
    let i = y * w + x;
    lemma_position(w, x, y);
    lemma_row_end(w, y, h);
    assert(h * w == w * h) by (nonlinear_arith);
    let (was, is) = (before[i], after[i]);
    assert(drawn(f, w, h, thickness, corner_radius, color, x, y, was, is));
    if thickness > 0 && mx < r && my < r {
        let (u, v) = (r - 1 - mx, r - 1 - my);
        assert(corner_drawn(f, r, t, u, v, color, was, is));
        let a = choose|a: u8| #[trigger]
            covers(f, r, t, u, v, a) && is == covered(was, color, a);
        lemma_corner_question(f, r, t, mx, my, a);
        assert(answers_corner(f, r, t, mx, my, a));
    }
}

/// A ring is an arc at its corners. Where a coverage function measures areas, a corner pixel that
/// lies outside the outer circle stays, one inside the inner circle stays, so that the window shows
/// through, and one between the two takes the opaque colour.
pub proof fn drawn_corners_lie_between_two_circles<F: Fn(usize, usize, usize, usize, bool) -> u8>(
    f: F,
    w: int,
    h: int,
    thickness: int,
    corner_radius: int,
    color: u32,
    before: Seq<u32>,
    after: Seq<u32>,
    x: int,
    y: int,
)
    requires
        measures_area(f),
        0 <= x < w <= usize::MAX,
        0 <= y < h <= usize::MAX,
        0 < thickness,
        0 <= corner_radius,
        color >= 0xFF00_0000,
        before.len() == w * h,
        ring_drawn(f, w, h, thickness, corner_radius, color, before, after),
        gap(x, w) < least(corner_radius, least(w, h) / 2),
        gap(y, h) < least(corner_radius, least(w, h) / 2),
    ensures
        ({
            let half = least(w, h) / 2;
            let r = least(corner_radius, half);
            let t = least(thickness, half);
            let (mx, my) = (gap(x, w), gap(y, h));
            let near = (r - 1 - mx) * (r - 1 - mx) + (r - 1 - my) * (r - 1 - my);
            let far = (r - mx) * (r - mx) + (r - my) * (r - my);
            let (was, is) = (before[y * w + x], after[y * w + x]);
            &&& near >= r * r ==> is == was
            &&& mx >= t && my >= t && far <= (r - t) * (r - t) ==> is == was
            &&& far <= r * r && (mx < t || my < t || near >= (r - t) * (r - t)) ==> is == color
        }),
{
    let half = least(w, h) / 2;
    let r = least(corner_radius, half);
    let t = least(thickness, half);
    let (mx, my) = (gap(x, w), gap(y, h));
    let (was, is) = (before[y * w + x], after[y * w + x]);
    drawn_ring_pixel_by_pixel(f, w, h, thickness, corner_radius, color, before, after, x, y);
    let a = choose|a: u8| #[trigger]
        answers_corner(f, r, t, mx, my, a) && is == if a == 0 {
            was
        } else {
            premultiplied(color, a)
        };
    lemma_arc_answers(f, r, t, mx, my, a);
    full_alpha_keeps_an_opaque_word(color);
}

/// What a coverage function that measures areas answers to a corner pixel.
proof fn lemma_arc_answers<F: Fn(usize, usize, usize, usize, bool) -> u8>(
    f: F,
    r: int,
    t: int,
    mx: int,
    my: int,
    a: u8,
)
    requires
        measures_area(f),
        0 <= mx < r <= usize::MAX,
        0 <= my < r,
        0 < t,
        answers_corner(f, r, t, mx, my, a),
    ensures
        ({
            let near = (r - 1 - mx) * (r - 1 - mx) + (r - 1 - my) * (r - 1 - my);
            let far = (r - mx) * (r - mx) + (r - my) * (r - my);
            &&& near >= r * r ==> a == 0
            &&& mx >= t && my >= t && far <= (r - t) * (r - t) ==> a == 0
            &&& far <= r * r && (mx < t || my < t || near >= (r - t) * (r - t)) ==> a == 255
        }),
{
    let u = (r - 1 - most(mx, my)) as usize;
    let v = (r - 1 - least(mx, my)) as usize;
    let inner = most(r - t, 0) as usize;
    assert(f.ensures((u, v, r as usize, inner, mx >= t && my >= t), a));
    let near = (r - 1 - mx) * (r - 1 - mx) + (r - 1 - my) * (r - 1 - my);
    let far = (r - mx) * (r - mx) + (r - my) * (r - my);
    assert(u * u + v * v == near);
    assert((u + 1) * (u + 1) + (v + 1) * (v + 1) == far);
}

/// Every pixel of a ring that is composited from a tile, and every other pixel of the buffer. The
/// pixel that lies `mx` and `my` pixels from the nearer edges takes the coverage in column `mx` of
/// row `my` of the tile. Nothing outside the image changes.
pub proof fn composited_ring_pixel_by_pixel(
    tile: Seq<u8>,
    stride: int,
    w: int,
    h: int,
    thickness: int,
    corner_radius: int,
    color: u32,
    before: Seq<u32>,
    after: Seq<u32>,
    x: int,
    y: int,
)
    requires
        0 <= x < stride,
        0 <= y,
        0 < w <= stride,
        0 < h,
        0 <= thickness,
        0 <= corner_radius,
        y * stride + x < before.len(),
        ring_composited(tile, stride, w, h, thickness, corner_radius, color, before, after),
    ensures
        after.len() == before.len(),
        ({
            let r = least(corner_radius, least(w, h) / 2);
            let (mx, my) = (gap(x, w), gap(y, h));
            let (was, is) = (before[y * stride + x], after[y * stride + x]);
            let a = tile[my * r + mx];
            if x >= w || y >= h || thickness == 0 {
                is == was
            } else if mx < r && my < r {
                is == if a == 0 {
                    was
                } else {
                    premultiplied(color, a)
                }
            } else if mx < thickness || my < thickness {
                is == color
            } else {
                is == was
            }
        }),
{
    lemma_position(stride, x, y);
    let i = y * stride + x;
    assert(after[i] == after[i]);
    assert(in_block(i, stride, 0, w, 0, h) == (x < w && y < h));
    if x < w && y < h {
        lemma_composited_pixel(tile, w, h, thickness, corner_radius, color, x, y, before[i]);
    }
}

proof fn lemma_composited_pixel(
    tile: Seq<u8>,
    w: int,
    h: int,
    thickness: int,
    corner_radius: int,
    color: u32,
    x: int,
    y: int,
    was: u32,
)
    requires
        0 <= x < w,
        0 <= y < h,
        0 <= thickness,
        0 <= corner_radius,
    ensures
        ({
            let r = least(corner_radius, least(w, h) / 2);
            let (mx, my) = (gap(x, w), gap(y, h));
            let a = tile[my * r + mx];
            composited(tile, w, h, thickness, corner_radius, color, x, y, was) == if thickness
                == 0 {
                was
            } else if mx < r && my < r {
                if a == 0 {
                    was
                } else {
                    premultiplied(color, a)
                }
            } else if mx < thickness || my < thickness {
                color
            } else {
                was
            }
        }),
{
    let r = least(corner_radius, least(w, h) / 2);
    let (mx, my) = (gap(x, w), gap(y, h));
    if thickness > 0 && mx < r && my < r {
        let (u, v) = (r - 1 - mx, r - 1 - my);
        assert(ring_zone(w, h, thickness, corner_radius, x, y) == RingZone::Corner { u, v });
        assert((r - 1 - v) * r + (r - 1 - u) == my * r + mx);
        assert(tile_alpha(tile, r, u, v) == tile[my * r + mx]);
    }
}

/// Column `x` of row `y` of a tile answers the corner pixel that lies `x` and `y` pixels from the
/// edges, and there are as many rows as columns as the radius says.
pub proof fn tile_answers_each_corner_pixel<F: Fn(usize, usize, usize, usize, bool) -> u8>(
    f: F,
    r: int,
    t: int,
    tile: Seq<u8>,
    x: int,
    y: int,
)
    requires
        tile_covers(f, r, t, tile),
        0 <= x < r,
        0 <= y < r,
    ensures
        tile.len() == r * r,
        answers_corner(f, r, t, x, y, tile[y * r + x]),
{
    let (u, v) = (r - 1 - x, r - 1 - y);
    assert((r - 1 - v) * r + (r - 1 - u) == y * r + x);
    assert(covers(f, r, t, u, v, tile_alpha(tile, r, u, v)));
    lemma_corner_question(f, r, t, x, y, tile[y * r + x]);
}

/// A tile is an arc. Where the coverage function measures areas, it is empty outside the outer
/// circle and inside the inner one, and full between them.
pub proof fn tiles_lie_between_two_circles<F: Fn(usize, usize, usize, usize, bool) -> u8>(
    f: F,
    r: int,
    t: int,
    tile: Seq<u8>,
    x: int,
    y: int,
)
    requires
        measures_area(f),
        tile_covers(f, r, t, tile),
        0 <= x < r <= usize::MAX,
        0 <= y < r,
        0 < t,
    ensures
        ({
            let near = (r - 1 - x) * (r - 1 - x) + (r - 1 - y) * (r - 1 - y);
            let far = (r - x) * (r - x) + (r - y) * (r - y);
            let a = tile[y * r + x];
            &&& near >= r * r ==> a == 0
            &&& x >= t && y >= t && far <= (r - t) * (r - t) ==> a == 0
            &&& far <= r * r && (x < t || y < t || near >= (r - t) * (r - t)) ==> a == 255
        }),
{
    tile_answers_each_corner_pixel(f, r, t, tile, x, y);
    lemma_arc_answers(f, r, t, x, y, tile[y * r + x]);
}

/// Blitting a tile puts the coverage in column `tx` of row `ty` where the square starts, counted
/// from its other end where it is mirrored, and changes nothing outside the square.
pub proof fn blitting_puts_the_tile_in_its_square(
    tile: Seq<u8>,
    stride: int,
    r: int,
    pos: CornerPos,
    color: u32,
    was: u32,
    x: int,
    y: int,
)
    requires
        0 <= x < stride,
        0 <= y,
        0 <= r,
    ensures
        ({
            let is = blitted(tile, stride, r, pos, r, 0, color, y * stride + x, was);
            if pos.ox <= x < pos.ox + r && pos.oy <= y < pos.oy + r {
                let tx = if pos.flip_x { pos.ox + r - 1 - x } else { x - pos.ox };
                let ty = if pos.flip_y { pos.oy + r - 1 - y } else { y - pos.oy };
                let a = tile[ty * r + tx];
                is == if a == 0 {
                    was
                } else {
                    premultiplied(color, a)
                }
            } else {
                is == was
            }
        }),
{
    lemma_position(stride, x, y);
    let i = y * stride + x;
    assert(i % stride == x && i / stride == y);
    if pos.ox <= x < pos.ox + r && pos.oy <= y < pos.oy + r {
        let tx = if pos.flip_x { pos.ox + r - 1 - x } else { x - pos.ox };
        let ty = if pos.flip_y { pos.oy + r - 1 - y } else { y - pos.oy };
        assert(tx == if pos.flip_x { r - 1 - (x - pos.ox) } else { x - pos.ox });
        assert(ty == if pos.flip_y { r - 1 - (y - pos.oy) } else { y - pos.oy });
        assert(blitted(tile, stride, r, pos, r, 0, color, i, was) == covered(
            was,
            color,
            tile[ty * r + tx],
        ));
    }
}

/// The inner arc of a rounded ring has the radius of the window's own corners, eight pixels and
/// four for small ones, so that the ring hugs the window. The default is the rounded corner, and a
/// square one has no arc at all.
pub proof fn rings_hug_the_corners_of_the_window(thickness: int)
    requires
        0 <= thickness,
    ensures
        corner_radius_of(CornerPreference::Rounded, thickness) - thickness == 8,
        corner_radius_of(CornerPreference::RoundedSmall, thickness) - thickness == 4,
        corner_radius_of(CornerPreference::Default, thickness) == corner_radius_of(
            CornerPreference::Rounded,
            thickness,
        ),
        corner_radius_of(CornerPreference::Square, thickness) == 0,
{
}

/// A capacity is enough, and less than twice what is needed.
pub proof fn capacity_is_enough_and_no_waste(c: int, n: int)
    requires
        is_capacity_for(c, n),
    ensures
        n <= c,
        1 <= n ==> c < 2 * n,
        n <= 1 ==> c == 1,
{
    lemma_pow2_unfold(1);
    assert(pow2(0) == 1) by {
        vstd::arithmetic::power2::lemma2_to64();
    }
    let k = choose|k: nat| c == #[trigger] pow2(k);
    vstd::arithmetic::power2::lemma_pow2_pos(k);
    if n <= 1 {
        assert(pow2(0) >= n);
    } else if k > 0 {
        lemma_pow2_unfold(k);
        let j = (k - 1) as nat;
        assert(pow2(k) == 2 * pow2(j));
        vstd::arithmetic::power2::lemma_pow2_pos(j);
        if pow2(j) >= n {
            assert(c <= pow2(j));
        }
    }
}

/// The corner radius that a preference and a thickness ask for.
pub open spec fn asked_radius(corner: CornerPreference, thickness: int) -> int {
    match corner {
        CornerPreference::Square => 0,
        CornerPreference::RoundedSmall => thickness + 4,
        CornerPreference::Rounded => thickness + 8,
        CornerPreference::Default => thickness + 8,
    }
}

/// What a surface that shows its ring holds at pixel `(x, y)`: nothing outside the outer circle
/// and inside the inner one, nothing in the interior, and the opaque colour between the circles and
/// in the bands.
pub proof fn surfaces_show_a_ring_of_their_own_thickness<
    F: Fn(usize, usize, usize, usize, bool) -> u8,
>(f: F, s: CachedSurface, x: int, y: int)
    requires
        measures_area(f),
        s.shows_ring(f),
        0 <= x < s.w,
        0 <= y < s.h,
    ensures
        ({
            let thickness = s.thickness as int;
            let half = least(s.w as int, s.h as int) / 2;
            let r = least(asked_radius(s.corner, thickness), half);
            let t = least(thickness, half);
            let (mx, my) = (gap(x, s.w as int), gap(y, s.h as int));
            let near = (r - 1 - mx) * (r - 1 - mx) + (r - 1 - my) * (r - 1 - my);
            let far = (r - mx) * (r - mx) + (r - my) * (r - my);
            let opaque = 0xFF00_0000 + s.color.r * 0x1_0000 + s.color.g * 0x100 + s.color.b;
            let is = s.pixels@[y * s.buf_w + x];
            if thickness == 0 {
                is == 0
            } else if mx < r && my < r {
                &&& near >= r * r ==> is == 0
                &&& mx >= t && my >= t && far <= (r - t) * (r - t) ==> is == 0
                &&& far <= r * r && (mx < t || my < t || near >= (r - t) * (r - t)) ==> is
                    == opaque
            } else if mx < thickness || my < thickness {
                is == opaque
            } else {
                is == 0
            }
        }),
{
    let (w, h, stride) = (s.w as int, s.h as int, s.buf_w as int);
    let thickness = s.thickness as int;
    let half = least(w, h) / 2;
    let r = least(asked_radius(s.corner, thickness), half);
    let t = least(thickness, half);
    let (mx, my) = (gap(x, w), gap(y, h));
    let i = y * stride + x;
    lemma_position(stride, x, y);
    lemma_row_end(stride, y, s.buf_h as int);
    assert(s.buf_h * stride == stride * s.buf_h) by (nonlinear_arith);
    assert(in_block(i, stride, 0, w, 0, h));
    assert(s.pixels@[i] == composited(
        s.coverage@,
        w,
        h,
        thickness,
        s.corner_radius(),
        opaque_word(s.color),
        x,
        y,
        0,
    ));
    lemma_composited_pixel(
        s.coverage@,
        w,
        h,
        thickness,
        s.corner_radius(),
        opaque_word(s.color),
        x,
        y,
        0,
    );
    if thickness > 0 && mx < r && my < r {
        tiles_lie_between_two_circles(f, r, t, s.coverage@, mx, my);
        full_alpha_keeps_an_opaque_word(opaque_word(s.color));
    }
}

} // verus!
