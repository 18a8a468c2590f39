//! Overlays, borders and their manager.
use flow_wm::borders::border::{Border, Edges, PaintPlan, Placement};
use flow_wm::borders::manager::{
    hook_loop_step, AttachPlan, BorderManager, HookStep, EVENT_OBJECT_LOCATIONCHANGE, OBJID_WINDOW,
    WINEVENT_OUTOFCONTEXT,
};
use flow_wm::borders::overlay::{fill_border_ring, pack_bgra, BorderOverlay};
use flow_wm::borders::surface::CachedSurface;
use flow_wm::borders::{style_for_state, BorderState, BorderStyle, CornerPreference};
use flow_wm::common::Rect;
use flow_wm::config::{BorderConfig, Color};

/// Antiderivative of the half chord of a circle of radius `r`.
fn segment(y: f64, r: f64) -> f64 {
    if r == 0.0 {
        return 0.0;
    }
    let yc = y.clamp(-r, r);
    let chord = (r * r - yc * yc).max(0.0).sqrt();
    (yc * chord + r * r * (yc / r).asin()) * 0.5
}

/// Area of a pixel in the first quadrant that lies in the circle of radius `r`.
fn area(u0: f64, u1: f64, v0: f64, v1: f64, r: f64) -> f64 {
    if u0 * u0 + v0 * v0 >= r * r {
        return 0.0;
    }
    if u1 * u1 + v1 * v1 <= r * r {
        return (u1 - u0) * (v1 - v0);
    }
    let y_u1 = (r * r - u1 * u1).max(0.0).sqrt();
    let y_u0 = (r * r - u0 * u0).max(0.0).sqrt();
    let straight = (v1.min(y_u1) - v0).max(0.0) * (u1 - u0);
    let lo = v0.max(y_u1);
    let hi = v1.min(y_u0);
    let curved = if lo < hi {
        segment(hi, r) - segment(lo, r) - u0 * (hi - lo)
    } else {
        0.0
    };
    straight + curved
}

/// Share of a corner pixel that a ring between two arcs covers.
fn coverage(u: usize, v: usize, outer_r: usize, inner_r: usize, in_inner: bool) -> u8 {
    let (u0, v0) = (u as f64, v as f64);
    let outer = area(u0, u0 + 1.0, v0, v0 + 1.0, outer_r as f64);
    let inner = if in_inner {
        area(u0, u0 + 1.0, v0, v0 + 1.0, inner_r as f64)
    } else {
        0.0
    };
    ((outer - inner).clamp(0.0, 1.0) * 255.0).round() as u8
}

fn color(r: u8, g: u8, b: u8) -> Color {
    Color::rgb(r, g, b)
}

#[test]
fn overlay_pack_bgra_orders_channels_as_blue_green_red_alpha() {
    let packed = pack_bgra(color(0xFF, 0x88, 0x00), 0xAA);
    assert_eq!(packed, 0xAA_FF_88_00);
}

#[test]
fn overlay_pack_bgra_full_alpha_for_opaque() {
    let packed = pack_bgra(color(0x12, 0x34, 0x56), 0xFF);
    assert_eq!(packed & 0xFF00_0000, 0xFF00_0000);
}

#[test]
fn overlay_fill_border_ring_zero_thickness_leaves_buffer_transparent() {
    let mut buf = vec![0u32; 9];
    fill_border_ring(&mut buf, 3, 3, 0, 0xFFFF00FF);
    assert!(buf.iter().all(|&p| p == 0));
}

#[test]
fn overlay_fill_border_ring_one_pixel_ring_on_3x3_leaves_only_center_transparent() {
    let mut buf = vec![0u32; 9];
    let colored = pack_bgra(color(0, 0, 0), 0xFF);
    fill_border_ring(&mut buf, 3, 3, 1, colored);
    assert_eq!(buf[0], colored);
    assert_eq!(buf[1], colored);
    assert_eq!(buf[2], colored);
    assert_eq!(buf[3], colored);
    assert_eq!(buf[4], 0, "center must stay transparent");
    assert_eq!(buf[5], colored);
    assert_eq!(buf[6], colored);
    assert_eq!(buf[7], colored);
    assert_eq!(buf[8], colored);
}

#[test]
fn overlay_fill_border_ring_two_pixel_ring_on_5x5_colors_outer_two_layers() {
    let mut buf = vec![0u32; 25];
    let colored = pack_bgra(color(0, 0, 0), 0xFF);
    fill_border_ring(&mut buf, 5, 5, 2, colored);
    for x in 0..5 {
        assert_eq!(buf[x], colored, "row 0 col {x}");
        assert_eq!(buf[5 + x], colored, "row 1 col {x}");
        assert_eq!(buf[15 + x], colored, "row 3 col {x}");
        assert_eq!(buf[20 + x], colored, "row 4 col {x}");
    }
    assert_eq!(buf[10], colored);
    assert_eq!(buf[11], colored);
    assert_eq!(buf[12], 0, "exact center must stay transparent");
    assert_eq!(buf[13], colored);
    assert_eq!(buf[14], colored);
}

#[test]
fn overlay_fill_border_ring_oversized_thickness_clamps_to_half_dimension() {
    let mut buf = vec![0u32; 16];
    let colored = pack_bgra(color(0, 0, 0), 0xFF);
    fill_border_ring(&mut buf, 4, 4, 100, colored);
    assert!(buf.iter().all(|&p| p == colored));
}

#[test]
fn overlay_fill_border_ring_empty_dimensions_is_noop() {
    let mut buf: Vec<u32> = vec![];
    fill_border_ring(&mut buf, 0, 0, 5, 0xFFFF00FF);
}

#[test]
fn manager_construction_with_default_config() {
    let _mgr = BorderManager::new(BorderConfig::default());
}

#[test]
fn event_object_locationchange_constant_correct() {
    assert_eq!(EVENT_OBJECT_LOCATIONCHANGE, 0x800B);
}

#[test]
fn objid_window_constant_correct() {
    assert_eq!(OBJID_WINDOW, 0);
}

#[test]
fn winevent_outofcontext_constant_correct() {
    assert_eq!(WINEVENT_OUTOFCONTEXT, 0x0000);
}

#[test]
fn disabled_manager_skips_attach() {
    let cfg = BorderConfig {
        enabled: false,
        ..BorderConfig::default()
    };
    let mut mgr = BorderManager::new(cfg);
    assert_eq!(mgr.attach_plan(0x1234), AttachPlan::Ignore);
    mgr.attach(
        0x1234,
        BorderStyle::new(Color::rgb(0, 0, 0), 3, CornerPreference::Default),
        Some(7),
    );
    assert_eq!(mgr.overlay_count(), 0);
}

#[test]
fn enabled_manager_attaches_creates_overlay_entry() {
    let mut mgr = BorderManager::new(BorderConfig::default());
    assert_eq!(mgr.attach_plan(0x4321), AttachPlan::Create);
    mgr.attach(
        0x4321,
        BorderStyle::new(Color::rgb(0, 0, 0), 3, CornerPreference::Default),
        Some(7),
    );
    assert!(mgr.overlay(0x4321).is_some());
}

#[test]
fn detach_is_idempotent() {
    let mut mgr = BorderManager::new(BorderConfig::default());
    assert!(mgr.detach(0x9999).is_none());
    mgr.attach(
        0x9999,
        BorderStyle::new(Color::rgb(0, 0, 0), 1, CornerPreference::Default),
        Some(7),
    );
    assert_eq!(mgr.detach(0x9999).map(|o| o.overlay), Some(7));
    assert!(mgr.detach(0x9999).is_none());
    assert!(mgr.overlay(0x9999).is_none());
}

#[test]
fn sync_overlay_with_unknown_target_is_silent_noop() {
    let mgr = BorderManager::new(BorderConfig::default());
    for &raw in &[0isize, 1, 0xDEAD_BEEF, -1] {
        assert!(mgr.sync_overlay(raw, None).is_none());
        assert!(mgr
            .sync_overlay(
                raw,
                Some(Edges { left: 0, top: 0, right: 10, bottom: 10 })
            )
            .is_none());
    }
    assert_eq!(mgr.overlay_count(), 0, "sync_overlay must not mutate the map");
}

#[test]
fn attaching_again_restyles_and_keeps_the_overlay_window() {
    let mut mgr = BorderManager::new(BorderConfig::default());
    let first = BorderStyle::new(Color::rgb(1, 2, 3), 3, CornerPreference::Default);
    let second = BorderStyle::new(Color::rgb(9, 9, 9), 4, CornerPreference::Square);
    mgr.attach(5, first, Some(50));
    assert_eq!(mgr.attach_plan(5), AttachPlan::Restyle);
    mgr.attach(5, second, Some(60));
    assert_eq!(mgr.overlay_count(), 1);
    assert_eq!(
        mgr.overlay(5),
        Some(BorderOverlay {
            target: 5,
            overlay: 50,
            style: second
        })
    );
    assert_eq!(mgr.config().thickness, 3);
}

#[test]
fn attach_without_an_overlay_window_leaves_the_target_alone() {
    let mut mgr = BorderManager::new(BorderConfig::default());
    let style = BorderStyle::new(Color::rgb(1, 2, 3), 3, CornerPreference::Default);
    mgr.attach(5, style, None);
    assert_eq!(mgr.overlay_count(), 0);
    assert!(mgr.set_style(5, style).is_none());
    assert!(mgr.set_visible(5, true).is_none());
}

#[test]
fn manager_routes_style_visibility_and_events() {
    let mut mgr = BorderManager::new(BorderConfig::default());
    let style = BorderStyle::new(Color::rgb(1, 2, 3), 3, CornerPreference::Default);
    let other = BorderStyle::new(Color::rgb(3, 2, 1), 2, CornerPreference::Default);
    mgr.attach(5, style, Some(50));
    assert_eq!(mgr.set_style(5, other).map(|o| o.style), Some(other));
    assert_eq!(mgr.set_visible(5, false), Some((50, false)));
    assert_eq!(mgr.overlay_for_event(OBJID_WINDOW, 5).map(|o| o.overlay), Some(50));
    assert_eq!(mgr.overlay_for_event(4, 5), None);
    assert_eq!(mgr.overlay_for_event(OBJID_WINDOW, 6), None);
    let frame = mgr
        .sync_overlay(5, Some(Edges { left: 10, top: 20, right: 15, bottom: 25 }))
        .unwrap();
    assert_eq!(frame.hwnd, 50);
    assert_eq!(frame.rect, Rect { x: 10, y: 20, width: 5, height: 5 });
    assert_eq!(frame.pixels[0], 0xFF03_0201);
    assert_eq!(frame.pixels[12], 0);
    mgr.start_hooks().unwrap();
    assert_eq!(
        mgr.start_hooks(),
        Err("start_hooks called more than once — this is a bug".to_string())
    );
    mgr.hooks_started(77);
    let (overlays, thread) = mgr.shutdown();
    assert_eq!(overlays.len(), 1);
    assert_eq!(thread, Some(77));
}

#[test]
fn hook_loop_quits_on_zero_and_fails_on_minus_one() {
    assert_eq!(hook_loop_step(0), HookStep::Quit);
    assert_eq!(hook_loop_step(-1), HookStep::Fail);
    assert_eq!(hook_loop_step(1), HookStep::Continue);
}

#[test]
fn overlay_redraw_needs_an_overlay_and_an_area() {
    let style = BorderStyle::new(Color::rgb(0, 0, 0), 1, CornerPreference::Default);
    let mut overlay = BorderOverlay::create(1, style, 2);
    assert_eq!(overlay.target_hwnd(), 1);
    assert!(overlay.redraw(None).is_none());
    let empty = Edges { left: 5, top: 0, right: 5, bottom: 9 };
    let inverted = Edges { left: 5, top: 9, right: 9, bottom: 0 };
    assert!(overlay.redraw(Some(empty)).is_none());
    assert!(overlay.redraw_with_rect(inverted).is_none());
    let edges = Edges { left: -2, top: -3, right: 4, bottom: 0 };
    let frame = overlay.sync_geometry(Some(edges)).unwrap();
    assert_eq!(frame.pixels.len(), 18);
    assert_eq!(frame.pixels[7], 0);
    assert_eq!(frame.pixels[6], 0xFF00_0000);
    assert_eq!(overlay.set_visible(true), Some((2, true)));
    assert_eq!(overlay.destroy(), Some(2));
    assert_eq!(overlay.destroy(), None);
    assert!(overlay.redraw(Some(edges)).is_none());
    assert_eq!(overlay.set_visible(true), None);
}

fn destroyed_border() -> Border {
    Border::create(
        BorderStyle::new(color(0, 0, 0), 1, CornerPreference::Square),
        0,
        0,
    )
}

#[test]
fn on_wm_size_is_noop_when_overlay_destroyed() {
    let mut border = destroyed_border();
    let edges = Edges { left: 0, top: 0, right: 10, bottom: 10 };
    assert!(!border.on_wm_size(Some(edges), true, &coverage));
    assert!(!border.on_wm_size(None, true, &coverage));
    assert!(
        border.surface.is_none(),
        "destroyed overlay must not allocate a cached surface"
    );
}

#[test]
fn paint_is_noop_when_overlay_destroyed() {
    let mut border = destroyed_border();
    let non_empty_rect = Rect { x: 0, y: 0, width: 10, height: 10 };
    assert!(!border.paint(non_empty_rect, true, &coverage));
    assert!(
        border.surface.is_none(),
        "destroyed overlay must not allocate a cached surface"
    );
}

#[test]
fn paint_is_noop_for_zero_area_rect() {
    let mut border = destroyed_border();
    let zero_area_rect = Rect { x: 0, y: 0, width: 10, height: 0 };
    assert!(!border.paint(zero_area_rect, true, &coverage));
    assert!(
        border.surface.is_none(),
        "zero-area rect must not allocate a cached surface"
    );
}

#[test]
fn paint_takes_the_cheapest_step() {
    let blue = Color::rgb(0, 0xAA, 0xFF);
    let grey = Color::rgb(0x55, 0x55, 0x55);
    let style = BorderStyle::new(blue, 3, CornerPreference::Rounded);
    let mut border = Border::create(style, 1, 2);
    let rect = Rect { x: 5, y: 6, width: 50, height: 40 };
    assert_eq!(border.paint_plan(rect), PaintPlan::Rebuild);
    assert!(!border.paint(rect, false, &coverage));
    assert!(border.surface.is_none());
    assert!(border.paint(rect, true, &coverage));
    {
        let s = border.surface.as_ref().unwrap();
        assert_eq!((s.buf_w, s.buf_h), (64, 64));
        assert_eq!((s.tile_r, s.tile_t), (11, 3));
        assert_eq!(s.pixels[25], 0xFF00_AAFF);
        assert_eq!(s.pixels[0], 0);
        assert_eq!(s.pixels[20 * 64 + 25], 0);
    }
    assert_eq!(border.paint_plan(rect), PaintPlan::Skip);
    assert!(!border.set_style(style));
    assert!(border.set_style(BorderStyle::new(grey, 3, CornerPreference::Rounded)));
    assert_eq!(border.paint_plan(rect), PaintPlan::Recolor);
    assert!(border.paint(rect, true, &coverage));
    let recolored = border.surface.as_ref().unwrap().pixels.clone();
    let rendered = CachedSurface::build(
        50,
        40,
        &BorderStyle::new(grey, 3, CornerPreference::Rounded),
        &coverage,
    );
    assert_eq!(recolored, rendered.pixels);
    let wider = Rect { x: 5, y: 6, width: 64, height: 30 };
    assert_eq!(border.paint_plan(wider), PaintPlan::Recomposite);
    assert!(border.paint(wider, true, &coverage));
    let s = border.surface.as_ref().unwrap();
    assert_eq!((s.w, s.h, s.buf_w, s.buf_h), (64, 30, 64, 64));
    let huge = Rect { x: 5, y: 6, width: 65, height: 30 };
    assert_eq!(border.paint_plan(huge), PaintPlan::Rebuild);
    let edges = Edges { left: 0, top: 0, right: 65, bottom: 30 };
    assert!(border.on_wm_size(Some(edges), true, &coverage));
    assert_eq!(border.surface.as_ref().unwrap().buf_w, 128);
    assert_eq!(border.surface.as_ref().unwrap().buf_h, 32);
}

#[test]
fn border_requests_reach_the_overlay_until_it_is_destroyed() {
    let style = BorderStyle::new(Color::rgb(0, 0, 0), 3, CornerPreference::RoundedSmall);
    let mut border = Border::create(style, 1, 2);
    let rect = Rect { x: 5, y: 6, width: 50, height: 40 };
    let empty = Rect { x: 5, y: 6, width: 0, height: 40 };
    assert_eq!(border.hwnd(), 2);
    assert_eq!(border.corner_preference(), CornerPreference::RoundedSmall);
    assert_eq!(border.seat_above_target(), Some((2, 1)));
    assert_eq!(border.set_visible(true), Some((2, true)));
    assert_eq!(
        border.set_geometry(rect),
        Some(Placement { hwnd: 2, above: 1, rect })
    );
    assert_eq!(border.set_geometry(empty), None);
    assert_eq!(
        border.overlay_rect(Some(Edges { left: 1, top: 2, right: 11, bottom: 22 })),
        Some(Rect { x: 1, y: 2, width: 10, height: 20 })
    );
    assert_eq!(border.destroy(), Some(2));
    assert_eq!(border.destroy(), None);
    assert_eq!(border.seat_above_target(), None);
    assert_eq!(border.set_visible(true), None);
    assert_eq!(border.set_geometry(rect), None);
    assert_eq!(
        border.overlay_rect(Some(Edges { left: 1, top: 2, right: 11, bottom: 22 })),
        None
    );
}

#[test]
fn style_for_state_picks_the_configured_color() {
    let cfg = BorderConfig::default();
    assert_eq!(
        style_for_state(&cfg, BorderState::Focused),
        BorderStyle::new(Color::rgb(0x00, 0xAA, 0xFF), 3, CornerPreference::Default)
    );
    assert_eq!(
        style_for_state(&cfg, BorderState::Unfocused).color,
        Color::rgb(0x55, 0x55, 0x55)
    );
    assert_eq!(
        style_for_state(&cfg, BorderState::Floating).color,
        Color::rgb(0xAA, 0x00, 0xFF)
    );
    assert_eq!(CornerPreference::default(), CornerPreference::Default);
}
