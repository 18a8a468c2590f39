//! Pixels of border rings.
use flow_wm::borders::raster;
use flow_wm::borders::pixel::{pack_bgra, pack_premultiplied, recolor_pixel};
use flow_wm::borders::raster::{
    blit_corner, composite_ring, corner_radius_px, next_capacity, BufferLayout, CornerPos,
};
use flow_wm::borders::CornerPreference;
use flow_wm::config::Color;

/// Antiderivative of the half chord of a circle of radius `r`.
fn segment(y: f64, r: f64) -> f64 {
    if r == 0.0 {
        return 0.0;
    }
    let yc = y.clamp(-r, r);
    let chord = (r * r - yc * yc).max(0.0).sqrt();
    (yc * chord + r * r * (yc / r).asin()) * 0.5
}

/// Area of a pixel in the first quadrant that lies in the circle of radius `r`.
fn area(u0: f64, u1: f64, v0: f64, v1: f64, r: f64) -> f64 {
    if u0 * u0 + v0 * v0 >= r * r {
        return 0.0;
    }
    if u1 * u1 + v1 * v1 <= r * r {
        return (u1 - u0) * (v1 - v0);
    }
    let y_u1 = (r * r - u1 * u1).max(0.0).sqrt();
    let y_u0 = (r * r - u0 * u0).max(0.0).sqrt();
    let straight = (v1.min(y_u1) - v0).max(0.0) * (u1 - u0);
    let lo = v0.max(y_u1);
    let hi = v1.min(y_u0);
    let curved = if lo < hi {
        segment(hi, r) - segment(lo, r) - u0 * (hi - lo)
    } else {
        0.0
    };
    straight + curved
}

/// Share of a corner pixel that a ring between two arcs covers.
fn coverage(u: usize, v: usize, outer_r: usize, inner_r: usize, in_inner: bool) -> u8 {
    let (u0, v0) = (u as f64, v as f64);
    let outer = area(u0, u0 + 1.0, v0, v0 + 1.0, outer_r as f64);
    let inner = if in_inner {
        area(u0, u0 + 1.0, v0, v0 + 1.0, inner_r as f64)
    } else {
        0.0
    };
    ((outer - inner).clamp(0.0, 1.0) * 255.0).round() as u8
}

fn fill_border_ring(
    pixels: &mut [u32],
    width: usize,
    height: usize,
    thickness: usize,
    corner_radius: usize,
    color: u32,
) {
    raster::fill_border_ring(
        pixels,
        width,
        height,
        thickness,
        corner_radius,
        color,
        &coverage,
    );
}

fn render_corner_coverage(radius: usize, thickness: usize) -> Vec<u8> {
    raster::render_corner_coverage(radius, thickness, &coverage)
}

fn color(r: u8, g: u8, b: u8) -> Color {
    Color::rgb(r, g, b)
}

fn effective_geometry(
    width: usize,
    height: usize,
    thickness: usize,
    corner_radius: usize,
) -> (usize, usize) {
    let half = width.min(height) / 2;
    (thickness.min(half), corner_radius.min(half))
}

fn assert_parity(width: usize, height: usize, thickness: usize, corner_radius: usize) {
    let (t, r) = effective_geometry(width, height, thickness, corner_radius);
    let coverage = render_corner_coverage(r, t);
    let colored = pack_bgra(color(0x42, 0x7A, 0xFF), 0xFF);
    let mut expected = vec![0u32; width * height];
    let mut actual = vec![0u32; width * height];
    fill_border_ring(
        &mut expected,
        width,
        height,
        thickness,
        corner_radius,
        colored,
    );
    composite_ring(
        &mut actual,
        BufferLayout {
            stride: width,
            width,
            height,
        },
        thickness,
        corner_radius,
        &coverage,
        colored,
    );
    for y in 0..height {
        for x in 0..width {
            let idx = y * width + x;
            assert_eq!(
                actual[idx], expected[idx],
                "composite != fill_border_ring at ({x},{y}) for \
                 W={width} H={height} T={thickness} R={corner_radius} \
                 (effective t={t} r={r})",
            );
        }
    }
}

fn identifiable_coverage(r: usize) -> Vec<u8> {
    let mut v = Vec::with_capacity(r * r);
    for ty in 0..r {
        for tx in 0..r {
            v.push((tx * 16 + ty + 1) as u8);
        }
    }
    v
}

#[test]
fn border_pack_bgra_orders_channels_as_blue_green_red_alpha() {
    let packed = pack_bgra(color(0xFF, 0x88, 0x00), 0xAA);
    assert_eq!(packed, 0xAA_FF_88_00);
}

#[test]
fn border_pack_bgra_full_alpha_for_opaque() {
    let packed = pack_bgra(color(0x12, 0x34, 0x56), 0xFF);
    assert_eq!(packed & 0xFF00_0000, 0xFF00_0000);
}

#[test]
fn border_fill_border_ring_zero_thickness_leaves_buffer_transparent() {
    let mut buf = vec![0u32; 9];
    fill_border_ring(&mut buf, 3, 3, 0, 0, 0xFFFF00FF);
    assert!(buf.iter().all(|&p| p == 0));
}

#[test]
fn border_fill_border_ring_one_pixel_ring_on_3x3_leaves_only_center_transparent() {
    let mut buf = vec![0u32; 9];
    let colored = pack_bgra(color(0, 0, 0), 0xFF);
    fill_border_ring(&mut buf, 3, 3, 1, 0, colored);
    assert_eq!(buf[0], colored);
    assert_eq!(buf[1], colored);
    assert_eq!(buf[2], colored);
    assert_eq!(buf[3], colored);
    assert_eq!(buf[4], 0, "center must stay transparent");
    assert_eq!(buf[5], colored);
    assert_eq!(buf[6], colored);
    assert_eq!(buf[7], colored);
    assert_eq!(buf[8], colored);
}

#[test]
fn border_fill_border_ring_two_pixel_ring_on_5x5_colors_outer_two_layers() {
    let mut buf = vec![0u32; 25];
    let colored = pack_bgra(color(0, 0, 0), 0xFF);
    fill_border_ring(&mut buf, 5, 5, 2, 0, colored);
    for x in 0..5 {
        assert_eq!(buf[x], colored, "row 0 col {x}");
        assert_eq!(buf[5 + x], colored, "row 1 col {x}");
        assert_eq!(buf[15 + x], colored, "row 3 col {x}");
        assert_eq!(buf[20 + x], colored, "row 4 col {x}");
    }
    assert_eq!(buf[10], colored);
    assert_eq!(buf[11], colored);
    assert_eq!(buf[12], 0, "exact center must stay transparent");
    assert_eq!(buf[13], colored);
    assert_eq!(buf[14], colored);
}

#[test]
fn border_fill_border_ring_oversized_thickness_clamps_to_half_dimension() {
    let mut buf = vec![0u32; 16];
    let colored = pack_bgra(color(0, 0, 0), 0xFF);
    fill_border_ring(&mut buf, 4, 4, 100, 0, colored);
    assert!(buf.iter().all(|&p| p == colored));
}

#[test]
fn border_fill_border_ring_empty_dimensions_is_noop() {
    let mut buf: Vec<u32> = vec![];
    fill_border_ring(&mut buf, 0, 0, 5, 0, 0xFFFF00FF);
}

#[test]
fn pack_bgra_zero_alpha_is_fully_transparent() {
    let packed = pack_bgra(color(0xFF, 0xFF, 0xFF), 0x00);
    assert_eq!(packed & 0xFF00_0000, 0, "alpha byte must be zero");
    assert_eq!(packed, 0x00_FF_FF_FF);
}

#[test]
fn pack_bgra_black_opaque_is_alpha_high_only() {
    let packed = pack_bgra(color(0, 0, 0), 0xFF);
    assert_eq!(packed, 0xFF_00_00_00);
}

#[test]
fn pack_bgra_white_opaque_is_all_ones() {
    let packed = pack_bgra(color(0xFF, 0xFF, 0xFF), 0xFF);
    assert_eq!(packed, 0xFFFF_FFFF);
}

#[test]
fn fill_border_ring_non_square_wide_buffer() {
    let mut buf = vec![0u32; 18];
    let colored = pack_bgra(color(0, 0, 0), 0xFF);
    fill_border_ring(&mut buf, 6, 3, 1, 0, colored);
    assert!(
        buf[0..6].iter().all(|&p| p == colored),
        "row 0 fully colored"
    );
    assert_eq!(buf[6], colored, "row 1 left edge");
    assert_eq!(buf[7], 0, "row 1 col 1 transparent");
    assert_eq!(buf[8], 0, "row 1 col 2 transparent");
    assert_eq!(buf[9], 0, "row 1 col 3 transparent");
    assert_eq!(buf[10], 0, "row 1 col 4 transparent");
    assert_eq!(buf[11], colored, "row 1 right edge");
    assert!(
        buf[12..18].iter().all(|&p| p == colored),
        "row 2 fully colored"
    );
}

#[test]
fn corner_radius_px_square_is_zero() {
    assert_eq!(corner_radius_px(CornerPreference::Square, 3), 0);
}

#[test]
fn corner_radius_px_rounded_adds_thickness() {
    assert_eq!(corner_radius_px(CornerPreference::Rounded, 3), 11);
    assert_eq!(corner_radius_px(CornerPreference::RoundedSmall, 3), 7);
    assert_eq!(corner_radius_px(CornerPreference::Default, 3), 11);
}

#[test]
fn pack_premultiplied_scales_channels() {
    assert_eq!(pack_premultiplied(0x00FF_FFFF, 128), 0x8080_8080);
    assert_eq!(pack_premultiplied(0x00AA_BBCC, 0x80), 0x8055_5E66);
}

#[test]
fn pack_premultiplied_identity_at_full_alpha() {
    assert_eq!(pack_premultiplied(0x00FF_FFFF, 0xFF), 0xFFFF_FFFF);
    assert_eq!(pack_premultiplied(0x00AA_BBCC, 0xFF), 0xFFAA_BBCC);
}

#[test]
fn pack_premultiplied_zero_alpha_is_zero() {
    assert_eq!(pack_premultiplied(0x00FF_FFFF, 0), 0);
    assert_eq!(pack_premultiplied(0x00AA_BBCC, 0), 0);
}

#[test]
fn fill_border_ring_rounded_keeps_extreme_corners_transparent() {
    let mut buf = vec![0u32; 11 * 11];
    let colored = pack_bgra(color(0, 0, 0), 0xFF);
    fill_border_ring(&mut buf, 11, 11, 1, 4, colored);
    assert_eq!(buf[0], 0, "top-left corner transparent");
    assert_eq!(buf[10], 0, "top-right corner transparent");
    assert_eq!(buf[11 * 10], 0, "bottom-left corner transparent");
    assert_eq!(buf[11 * 10 + 10], 0, "bottom-right corner transparent");
    assert_eq!(buf[5], colored, "top edge middle colored");
    assert_eq!(buf[5 * 11], colored, "left edge middle colored");
}

#[test]
fn fill_border_ring_rounded_leaves_center_transparent() {
    let mut buf = vec![0u32; 11 * 11];
    let colored = pack_bgra(color(0, 0, 0), 0xFF);
    fill_border_ring(&mut buf, 11, 11, 1, 4, colored);
    assert_eq!(buf[5 * 11 + 5], 0, "center transparent");
}

#[test]
fn fill_border_ring_rounded_emits_partial_alpha_on_arcs() {
    const W: usize = 40;
    const H: usize = 40;
    let mut buf = vec![0u32; W * H];
    let colored = pack_bgra(color(0, 0, 0), 0xFF);
    fill_border_ring(&mut buf, W, H, 3, 15, colored);
    let rgb = colored & 0x00FF_FFFF;
    let mut partial = 0usize;
    let mut full = 0usize;
    let mut empty = 0usize;
    let mut partial_alphas = std::collections::HashSet::new();
    for &px in &buf {
        let a = (px >> 24) & 0xFF;
        if a == 0 {
            empty += 1;
        } else if a == 0xFF && (px & 0x00FF_FFFF) == rgb {
            full += 1;
        } else {
            partial += 1;
            partial_alphas.insert(a);
        }
    }
    assert!(
        partial > 0,
        "rounded ring must have AA (partial-alpha) pixels"
    );
    assert!(full > 0, "straight-band ring pixels must be fully opaque");
    assert!(
        empty > 0,
        "extreme corners + interior must stay transparent"
    );
    assert!(
        partial_alphas.len() >= 2,
        "AA arc must show a graded coverage gradient, found only {:?}",
        partial_alphas
    );
    for y in 0..H {
        for x in 0..W {
            let px = buf[y * W + x];
            assert_eq!(
                px,
                buf[y * W + (W - 1 - x)],
                "alpha map must mirror horizontally at ({x},{y})"
            );
            assert_eq!(
                px,
                buf[(H - 1 - y) * W + x],
                "alpha map must mirror vertically at ({x},{y})"
            );
        }
    }
}

#[test]
fn fill_border_ring_rounded_zero_inner_radius_keeps_interior_transparent() {
    let mut buf = vec![0u32; 16 * 16];
    let colored = pack_bgra(color(0, 0, 0), 0xFF);
    fill_border_ring(&mut buf, 16, 16, 4, 4, colored);
    assert_eq!(buf[0], 0, "top-left corner outside the outer arc");
    assert_eq!(
        buf[8], colored,
        "top straight band must be fully opaque even with inner_radius 0"
    );
    assert_eq!(
        buf[8 * 16 + 8],
        0,
        "interior inside inner bbox must stay transparent"
    );
}

#[test]
fn recolor_pixel_preserves_alpha_and_swaps_rgb() {
    let original = pack_bgra(color(0x11, 0x22, 0x33), 0x80);
    let recolored = recolor_pixel(original, color(0xAA, 0xBB, 0xCC));
    assert_eq!(recolored, pack_premultiplied(0x00AA_BBCC, 0x80));
    assert_eq!(recolored >> 24, 0x80, "alpha byte must be preserved");
}

#[test]
fn recolor_pixel_leaves_transparent_untouched() {
    assert_eq!(recolor_pixel(0, color(0xFF, 0xFF, 0xFF)), 0);
    let px = 0x00_11_22_33u32;
    assert_eq!(recolor_pixel(px, color(0xFF, 0xFF, 0xFF)), px);
}

#[test]
fn recolor_pixel_full_alpha_preserves_opacity_and_swaps_rgb() {
    let original = pack_bgra(color(0x11, 0x22, 0x33), 0xFF);
    let recolored = recolor_pixel(original, color(0xAA, 0xBB, 0xCC));
    assert_eq!(recolored, pack_bgra(color(0xAA, 0xBB, 0xCC), 0xFF));
    assert_eq!(recolored >> 24, 0xFF);
}

#[test]
fn composite_ring_matches_fill_border_ring_across_geometry_sweep() {
    assert_parity(3, 3, 1, 0);
    assert_parity(5, 5, 2, 0);
    assert_parity(6, 3, 1, 0);
    assert_parity(4, 4, 100, 0);
    assert_parity(11, 11, 1, 4);
    assert_parity(11, 11, 3, 4);
    assert_parity(40, 40, 3, 15);
    assert_parity(33, 21, 2, 9);
    assert_parity(10, 20, 2, 5);
    assert_parity(20, 10, 2, 5);
    assert_parity(11, 22, 2, 5);
    assert_parity(5, 5, 1, 8);
    assert_parity(7, 9, 3, 20);
    assert_parity(1600, 900, 3, 11);
    assert_parity(1600, 900, 3, 7);
    assert_parity(20, 20, 0, 5);
}

#[test]
fn composite_ring_with_wider_stride_matches_fill_border_ring() {
    let (width, height, thickness, corner_radius) = (40, 30, 3, 9);
    let (t, r) = effective_geometry(width, height, thickness, corner_radius);
    let coverage = render_corner_coverage(r, t);
    let colored = pack_bgra(color(0x42, 0x7A, 0xFF), 0xFF);
    let mut expected = vec![0u32; width * height];
    fill_border_ring(
        &mut expected,
        width,
        height,
        thickness,
        corner_radius,
        colored,
    );
    let stride = width + 11;
    let buf_h = height + 5;
    let mut actual = vec![0u32; stride * buf_h];
    composite_ring(
        &mut actual,
        BufferLayout {
            stride,
            width,
            height,
        },
        thickness,
        corner_radius,
        &coverage,
        colored,
    );
    for y in 0..height {
        for x in 0..width {
            assert_eq!(
                actual[y * stride + x],
                expected[y * width + x],
                "stride composite != fill_border_ring at ({x},{y})"
            );
        }
    }
    for y in 0..height {
        for x in width..stride {
            assert_eq!(
                actual[y * stride + x],
                0,
                "stride padding polluted at ({x},{y})"
            );
        }
    }
    for y in height..buf_h {
        for x in 0..stride {
            assert_eq!(
                actual[y * stride + x],
                0,
                "vertical padding polluted at ({x},{y})"
            );
        }
    }
}

#[test]
fn render_corner_coverage_emits_graded_arc() {
    let cov = render_corner_coverage(15, 3);
    assert_eq!(cov.len(), 15 * 15);
    let distinct: std::collections::HashSet<u8> = cov.iter().copied().collect();
    assert!(distinct.contains(&0), "extreme corner + interior must be 0");
    assert!(
        distinct.contains(&255),
        "solid straight-band part of the tile must be fully covered"
    );
    assert!(
        distinct.len() >= 3,
        "arc must show a graded coverage gradient, got {distinct:?}"
    );
}

#[test]
fn render_corner_coverage_zero_radius_is_empty() {
    assert!(render_corner_coverage(0, 3).is_empty());
    let mut expected = vec![0u32; 6 * 4];
    let mut actual = vec![0u32; 6 * 4];
    let colored = pack_bgra(color(0, 0, 0), 0xFF);
    fill_border_ring(&mut expected, 6, 4, 1, 0, colored);
    composite_ring(
        &mut actual,
        BufferLayout {
            stride: 6,
            width: 6,
            height: 4,
        },
        1,
        0,
        &[],
        colored,
    );
    assert_eq!(actual, expected);
}

#[test]
fn next_capacity_non_positive_clamps_to_one() {
    assert_eq!(next_capacity(0), 1);
    assert_eq!(next_capacity(-1), 1);
    assert_eq!(next_capacity(-1024), 1);
}

#[test]
fn next_capacity_rounds_up_to_next_power_of_two() {
    assert_eq!(next_capacity(1), 1);
    assert_eq!(next_capacity(2), 2);
    assert_eq!(next_capacity(3), 4);
    assert_eq!(next_capacity(5), 8);
    assert_eq!(next_capacity(1024), 1024, "exact pow2 stays put");
    assert_eq!(next_capacity(1025), 2048, "one past pow2 rounds up");
    assert_eq!(next_capacity(1600), 2048, "realistic window width");
}

#[test]
fn composite_ring_zero_dimension_leaves_buffer_untouched() {
    let mut buf_w = vec![0xDEAD_BEEF_u32; 64];
    composite_ring(
        &mut buf_w,
        BufferLayout {
            stride: 8,
            width: 0,
            height: 8,
        },
        2,
        0,
        &[],
        0xFFFF00FF,
    );
    assert!(
        buf_w.iter().all(|&p| p == 0xDEAD_BEEF),
        "zero-width composite must not write any pixel"
    );
    let mut buf_h = vec![0xDEAD_BEEF_u32; 64];
    composite_ring(
        &mut buf_h,
        BufferLayout {
            stride: 8,
            width: 8,
            height: 0,
        },
        2,
        0,
        &[],
        0xFFFF00FF,
    );
    assert!(
        buf_h.iter().all(|&p| p == 0xDEAD_BEEF),
        "zero-height composite must not write any pixel"
    );
}

#[test]
fn composite_ring_zero_thickness_leaves_buffer_untouched() {
    let mut buf = vec![0xDEAD_BEEF_u32; 100];
    composite_ring(
        &mut buf,
        BufferLayout {
            stride: 10,
            width: 10,
            height: 10,
        },
        0,
        4,
        &[],
        0xFFFF00FF,
    );
    assert!(
        buf.iter().all(|&p| p == 0xDEAD_BEEF),
        "zero-thickness composite must not write any pixel"
    );
}

#[test]
fn render_corner_coverage_oversized_thickness_clamps_to_radius() {
    let cov_clamped = render_corner_coverage(5, 100);
    let cov_at_radius = render_corner_coverage(5, 5);
    assert_eq!(
        cov_clamped, cov_at_radius,
        "thickness > radius must clamp to t == radius"
    );
}

#[test]
fn render_corner_coverage_size_is_radius_squared() {
    for r in [1usize, 2, 3, 5, 8, 12] {
        assert_eq!(
            render_corner_coverage(r, r / 2).len(),
            r * r,
            "tile for r={r} must be r*r bytes"
        );
    }
}

#[test]
fn render_corner_coverage_tile_is_transpose_symmetric() {
    let r = 12;
    let cov = render_corner_coverage(r, 4);
    for y in 0..r {
        for x in 0..r {
            assert_eq!(
                cov[y * r + x],
                cov[x * r + y],
                "tile must be symmetric under transpose at ({x},{y})"
            );
        }
    }
}

#[test]
fn blit_corner_no_flip_writes_tile_verbatim_at_origin() {
    let r = 4;
    let cov = identifiable_coverage(r);
    let mut buf = vec![0u32; r * r];
    blit_corner(
        &mut buf,
        r,
        &cov,
        r,
        0x00FF_FFFF,
        CornerPos {
            ox: 0,
            oy: 0,
            flip_x: false,
            flip_y: false,
        },
    );
    for ty in 0..r {
        for tx in 0..r {
            let expected_alpha = cov[ty * r + tx];
            assert_eq!(
                buf[ty * r + tx],
                pack_premultiplied(0x00FF_FFFF, expected_alpha),
                "no-flip blit wrong at ({tx},{ty})"
            );
        }
    }
}

#[test]
fn blit_corner_flip_x_mirrors_horizontally() {
    let r = 4;
    let cov = identifiable_coverage(r);
    let mut buf = vec![0u32; r * r];
    blit_corner(
        &mut buf,
        r,
        &cov,
        r,
        0x00FF_FFFF,
        CornerPos {
            ox: 0,
            oy: 0,
            flip_x: true,
            flip_y: false,
        },
    );
    for ty in 0..r {
        for tx in 0..r {
            let expected_alpha = cov[ty * r + (r - 1 - tx)];
            assert_eq!(
                buf[ty * r + tx],
                pack_premultiplied(0x00FF_FFFF, expected_alpha),
                "flip_x blit wrong at ({tx},{ty})"
            );
        }
    }
}

#[test]
fn blit_corner_flip_y_mirrors_vertically() {
    let r = 4;
    let cov = identifiable_coverage(r);
    let mut buf = vec![0u32; r * r];
    blit_corner(
        &mut buf,
        r,
        &cov,
        r,
        0x00FF_FFFF,
        CornerPos {
            ox: 0,
            oy: 0,
            flip_x: false,
            flip_y: true,
        },
    );
    for ty in 0..r {
        for tx in 0..r {
            let expected_alpha = cov[(r - 1 - ty) * r + tx];
            assert_eq!(
                buf[ty * r + tx],
                pack_premultiplied(0x00FF_FFFF, expected_alpha),
                "flip_y blit wrong at ({tx},{ty})"
            );
        }
    }
}

#[test]
fn blit_corner_flip_xy_rotates_180() {
    let r = 4;
    let cov = identifiable_coverage(r);
    let mut buf = vec![0u32; r * r];
    blit_corner(
        &mut buf,
        r,
        &cov,
        r,
        0x00FF_FFFF,
        CornerPos {
            ox: 0,
            oy: 0,
            flip_x: true,
            flip_y: true,
        },
    );
    for ty in 0..r {
        for tx in 0..r {
            let expected_alpha = cov[(r - 1 - ty) * r + (r - 1 - tx)];
            assert_eq!(
                buf[ty * r + tx],
                pack_premultiplied(0x00FF_FFFF, expected_alpha),
                "flip_xy blit wrong at ({tx},{ty})"
            );
        }
    }
}

#[test]
fn blit_corner_skips_zero_coverage_pixels() {
    let cov = vec![1u8, 2, 3, 4, 0, 6, 7, 8, 9];
    let mut buf = vec![0u32; 9];
    blit_corner(
        &mut buf,
        3,
        &cov,
        3,
        0x00FF_FFFF,
        CornerPos {
            ox: 0,
            oy: 0,
            flip_x: false,
            flip_y: false,
        },
    );
    assert_eq!(buf[4], 0, "zero-coverage pixel must be skipped");
    assert_eq!(
        buf[0],
        pack_premultiplied(0x00FF_FFFF, cov[0]),
        "non-zero pixel at (0,0) must be written"
    );
}

#[test]
fn blit_corner_places_tile_at_offset_with_stride() {
    let r = 2;
    let cov = identifiable_coverage(r);
    let stride = 8;
    let width = 6;
    let height = 5;
    let mut buf = vec![0u32; stride * height];
    let ox = width - r;
    let oy = height - r;
    blit_corner(
        &mut buf,
        stride,
        &cov,
        r,
        0x00FF_FFFF,
        CornerPos {
            ox,
            oy,
            flip_x: true,
            flip_y: true,
        },
    );
    for ty in 0..r {
        for tx in 0..r {
            let dst_x = ox + (r - 1 - tx);
            let dst_y = oy + (r - 1 - ty);
            let src = cov[ty * r + tx];
            assert_eq!(
                buf[dst_y * stride + dst_x],
                pack_premultiplied(0x00FF_FFFF, src),
                "offset+stride blit wrong at src ({tx},{ty}) -> dst ({dst_x},{dst_y})"
            );
        }
    }
    assert_eq!(buf[0], 0, "buffer outside the tile placement must stay 0");
}

#[test]
fn an_oversized_thickness_fills_the_whole_image() {
    let none = |_: usize, _: usize, _: usize, _: usize, _: bool| 0u8;
    let mut px = vec![0u32; 9];
    raster::fill_border_ring(&mut px, 3, 3, 100, 0, 0xFF00_0000, &none);
    assert_eq!(px, vec![0xFF00_0000; 9]);
    let mut px = vec![0u32; 9];
    flow_wm::borders::overlay::fill_border_ring(&mut px, 3, 3, 100, 0xFF00_0000);
    assert_eq!(px, vec![0xFF00_0000; 9]);
    let mut px = vec![7u32; 3 * 8];
    composite_ring(
        &mut px,
        BufferLayout { stride: 8, width: 5, height: 3 },
        2,
        0,
        &[],
        9,
    );
    for (i, p) in px.iter().enumerate() {
        assert_eq!(*p, if i % 8 < 5 { 9 } else { 7 });
    }
    let mut px = vec![0u32; 4];
    raster::fill_border_ring(&mut px, 1, 4, 1, 3, 5, &none);
    assert_eq!(px, vec![5; 4]);
    let mut px = vec![0u32; 35];
    raster::fill_border_ring(&mut px, 7, 5, 3, 1, 5, &none);
    for (i, p) in px.iter().enumerate() {
        let corner = (i % 7 == 0 || i % 7 == 6) && (i / 7 == 0 || i / 7 == 4);
        assert_eq!(*p, if corner { 0 } else { 5 });
    }
}
