//! What holds across several calls, on concrete values.
use flow_wm::animation::batch::AnimationBatch;
use flow_wm::animation::metrics::MetricsRecorder;
use flow_wm::autostart::Wide;
use flow_wm::borders::border::{Border, PaintPlan};
use flow_wm::borders::pixel::{pack_bgra, pack_premultiplied, recolor_pixel};
use flow_wm::borders::raster::{
    composite_ring, fill_border_ring, next_capacity, render_corner_coverage, BufferLayout,
};
use flow_wm::borders::surface::CachedSurface;
use flow_wm::borders::{overlay, BorderManager, BorderStyle, CornerPreference};
use flow_wm::cli::{cmd_dispatch, DispatchCommands, HorizontalDirection, WindowMode};
use flow_wm::common::{Direction, Rect};
use flow_wm::config::history::{HistoryRead, HistoryStore};
use flow_wm::config::lifecycle::{init_config_dir, writes_default_file, InitContents, InitStep};
use flow_wm::config::{
    AnimationConfig, BorderConfig, Color, EdgeScrollConfig, FlowConfig, WindowAction,
};
use std::collections::HashMap;

/// A coverage function with a different value for almost every pixel.
fn stripes(u: usize, v: usize, outer_r: usize, inner_r: usize, in_inner: bool) -> u8 {
    let n = u * 7 + v * 7 + outer_r * 3 + inner_r + usize::from(in_inner) * 50;
    (n % 256) as u8
}

#[test]
fn overlapping_means_sharing_a_pixel() {
    let a = Rect { x: 0, y: 0, width: 3, height: 3 };
    for x in -4..5 {
        for y in -4..5 {
            let b = Rect { x, y, width: 2, height: 2 };
            let shared = (0..3).any(|px| {
                (0..3).any(|py| (x..x + 2).contains(&px) && (y..y + 2).contains(&py))
            });
            assert_eq!(a.overlaps(b), shared);
            assert_eq!(b.overlaps(a), shared);
        }
    }
}

#[test]
fn surfaces_show_what_direct_rasterising_draws() {
    for (w, h, t, pref) in [
        (50, 40, 3, CornerPreference::Rounded),
        (7, 9, 30, CornerPreference::RoundedSmall),
        (12, 5, 2, CornerPreference::Square),
        (1, 1, 1, CornerPreference::Default),
    ] {
        let style = BorderStyle::new(Color::rgb(10, 200, 30), t, pref);
        let s = CachedSurface::build(w, h, &style, &stripes);
        let radius = match pref {
            CornerPreference::Square => 0,
            CornerPreference::RoundedSmall => 4 + t as usize,
            _ => 8 + t as usize,
        };
        let mut tight = vec![0u32; (w * h) as usize];
        fill_border_ring(
            &mut tight,
            w as usize,
            h as usize,
            t as usize,
            radius,
            pack_bgra(style.color, 0xFF),
            &stripes,
        );
        for y in 0..h {
            for x in 0..w {
                assert_eq!(
                    s.pixels[(y * s.buf_w + x) as usize],
                    tight[(y * w + x) as usize]
                );
            }
        }
    }
}

#[test]
fn recoloring_keeps_only_the_last_color() {
    for alpha in [0, 1, 77, 128, 254, 255] {
        let px = pack_premultiplied(0x0012_3456, alpha);
        let (first, second) = (Color::rgb(1, 2, 3), Color::rgb(200, 100, 50));
        assert_eq!(
            recolor_pixel(recolor_pixel(px, first), second),
            recolor_pixel(px, second)
        );
        assert_eq!(
            recolor_pixel(px, second),
            pack_premultiplied(pack_bgra(second, 0), alpha)
        );
    }
}

#[test]
fn compositing_twice_changes_only_the_image() {
    let tile = render_corner_coverage(3, 2, &stripes);
    let mut px = vec![9u32; 16 * 10];
    let layout = BufferLayout { stride: 16, width: 9, height: 8 };
    composite_ring(&mut px, layout, 2, 3, &tile, 0xFF01_0203);
    for y in 0..10 {
        for x in 0..16 {
            if x >= 9 || y >= 8 {
                assert_eq!(px[y * 16 + x], 9);
            }
        }
    }
}

#[test]
fn capacities_are_powers_of_two_that_grow() {
    let mut seen = Vec::new();
    for n in 1..=1024 {
        let c = next_capacity(n);
        assert!(c >= n && c < 2 * n);
        assert_eq!(next_capacity(c), c);
        if seen.last() != Some(&c) {
            assert!(seen.last().map_or(true, |last| *last < c));
            seen.push(c);
        }
    }
    assert_eq!(seen.len(), 11);
    assert_eq!(next_capacity(0x4000_0000), 0x4000_0000);
}

#[test]
fn oversized_square_rings_fill_the_image() {
    let mut even = vec![0u32; 4 * 7];
    overlay::fill_border_ring(&mut even, 4, 7, 50, 5);
    assert!(even.iter().all(|&p| p == 5));
    let mut odd = vec![0u32; 9];
    overlay::fill_border_ring(&mut odd, 3, 3, 50, 5);
    assert!(odd.iter().all(|&p| p == 5));
    let mut thin = vec![0u32; 7];
    overlay::fill_border_ring(&mut thin, 7, 1, 1, 5);
    assert!(thin.iter().all(|&p| p == 5));
    let mut exact = vec![0u32; 25];
    overlay::fill_border_ring(&mut exact, 5, 5, 2, 5);
    assert_eq!(exact.iter().filter(|&&p| p == 0).count(), 1);
    assert_eq!(exact[12], 0);
}

#[test]
fn painting_again_has_nothing_to_do() {
    let style = BorderStyle::new(Color::rgb(1, 2, 3), 3, CornerPreference::Default);
    let mut border = Border::create(style, 1, 2);
    let rect = Rect { x: 0, y: 0, width: 30, height: 20 };
    assert!(border.paint(rect, true, &stripes));
    assert_eq!(border.paint_plan(rect), PaintPlan::Skip);
    assert!(!border.paint(rect, true, &stripes));
    let smaller = Rect { x: 0, y: 0, width: 3, height: 2 };
    assert_eq!(border.paint_plan(smaller), PaintPlan::Recomposite);
    border.destroy();
    assert_eq!(border.paint_plan(smaller), PaintPlan::Skip);
}

#[test]
fn detaching_undoes_attaching() {
    let style = BorderStyle::new(Color::rgb(1, 2, 3), 3, CornerPreference::Default);
    let mut mgr = BorderManager::new(BorderConfig::default());
    mgr.attach(1, style, Some(10));
    mgr.attach(2, style, Some(20));
    mgr.detach(2);
    assert_eq!(mgr.overlay_count(), 1);
    assert_eq!(mgr.overlay(1).map(|o| o.overlay), Some(10));
}

#[test]
fn recording_leaves_other_applications_alone() {
    let mut store = HistoryStore::new();
    store.record(WindowAction::Tile, "a.exe", Some("x"));
    store.record(WindowAction::Float, "a.exe", Some("y"));
    store.record(WindowAction::Ignore, "b.exe", None);
    let before = store.clone();
    assert!(store.record(WindowAction::Ignore, "a.exe", Some("y")));
    assert_eq!(store.len(), 3);
    assert_eq!(store.rules()[0], before.rules()[0]);
    assert_eq!(store.rules()[2], before.rules()[2]);
    assert_eq!(store.rules()[1].action, WindowAction::Ignore);
    let once = store.clone();
    assert!(!store.record(WindowAction::Ignore, "a.exe", Some("y")));
    assert_eq!(store, once);
}

#[test]
fn every_application_keeps_one_rule_with_its_last_action() {
    let mut store = HistoryStore::new();
    let calls = [
        (WindowAction::Tile, "b.exe", Some("x")),
        (WindowAction::Float, "a.exe", None),
        (WindowAction::Ignore, "b.exe", Some("y")),
        (WindowAction::Tile, "a.exe", Some("")),
        (WindowAction::Float, "b.exe", Some("x")),
    ];
    for (action, exe, class) in calls {
        assert!(store.record(action, exe, class));
        assert!(!store.record(action, exe, class));
    }
    let rules: Vec<(Option<&str>, Option<&str>, WindowAction)> = store
        .rules()
        .iter()
        .map(|r| (r.match_.exe.as_deref(), r.match_.class.as_deref(), r.action))
        .collect();
    assert_eq!(
        rules,
        vec![
            (Some("b.exe"), Some("x"), WindowAction::Float),
            (Some("a.exe"), None, WindowAction::Tile),
            (Some("b.exe"), Some("y"), WindowAction::Ignore),
        ]
    );
    let again = HistoryStore::load(HistoryRead::Rules(store.config().clone()));
    assert_eq!(again, store);
}

fn set_up(files: &mut HashMap<String, String>, steps: &[InitStep]) {
    for step in steps {
        if let InitStep::WriteNew { path, content, .. } = step {
            if writes_default_file(files.contains_key(path)) {
                files.insert(path.clone(), content.clone());
            }
        }
    }
}

#[test]
fn setting_up_twice_is_setting_up_once_and_replaces_nothing() {
    let contents = InitContents {
        config_example: "example".to_string(),
        default_rules: Ok("rules".to_string()),
        config_schema: Ok("{1}".to_string()),
        rules_schema: Ok("{2}".to_string()),
    };
    let steps = init_config_dir("cfg", &contents);
    let custom = match &steps[2] {
        InitStep::WriteNew { path, .. } => path.clone(),
        other => panic!("{other:?}"),
    };
    let mut files = HashMap::from([(custom.clone(), "mine".to_string())]);
    set_up(&mut files, &steps);
    assert_eq!(files.len(), 4);
    assert_eq!(files[&custom], "mine");
    let once = files.clone();
    set_up(&mut files, &steps);
    assert_eq!(files, once);
}

#[test]
fn wide_strings_lose_nothing_and_end_once() {
    let texts = ["", "a", "ab", "\u{10000}", "\u{D7FF}\u{E000}", "a\u{1F600}b"];
    for (i, a) in texts.iter().enumerate() {
        let wide = Wide::from_str(a).buf;
        assert_eq!(wide.iter().position(|&u| u == 0), Some(wide.len() - 1));
        for (j, b) in texts.iter().enumerate() {
            assert_eq!(wide == Wide::from_str(b).buf, i == j);
        }
    }
}

#[test]
fn different_commands_send_different_messages() {
    let commands = [
        DispatchCommands::Focus { direction: Direction::Left },
        DispatchCommands::Focus { direction: Direction::Right },
        DispatchCommands::Focus { direction: Direction::Up },
        DispatchCommands::Focus { direction: Direction::Down },
        DispatchCommands::SwapColumn { direction: HorizontalDirection::Left },
        DispatchCommands::MoveWindow { direction: Direction::Left },
        DispatchCommands::MergeColumn { direction: HorizontalDirection::Left },
        DispatchCommands::Promote { direction: HorizontalDirection::Left },
        DispatchCommands::ExpandColumn,
        DispatchCommands::ShrinkColumn,
        DispatchCommands::Center,
        DispatchCommands::CloseWindow,
        DispatchCommands::SetWindow { mode: WindowMode::Float },
        DispatchCommands::SetWindow { mode: WindowMode::Tile },
        DispatchCommands::SwitchWorkspace { workspace_id: 1 },
        DispatchCommands::SwapWorkspace { workspace_id: 1 },
        DispatchCommands::MoveWindowToWorkspace { workspace_id: 1 },
    ];
    for (i, a) in commands.iter().enumerate() {
        for (j, b) in commands.iter().enumerate() {
            assert_eq!(cmd_dispatch(*a).message == cmd_dispatch(*b).message, i == j);
        }
    }
}

#[test]
fn intervals_that_apply_are_stable_and_valid() {
    for (interval, duration, enabled) in [(0, 300, true), (100, 50, false), (90, 300, false)] {
        let animation = AnimationConfig {
            enabled,
            duration_ms: duration,
            ..AnimationConfig::default()
        };
        let edge_scroll = EdgeScrollConfig {
            repeat_interval_ms: interval,
            ..EdgeScrollConfig::default()
        };
        let applied = edge_scroll.effective_repeat_interval_ms(&animation);
        let settled = EdgeScrollConfig {
            repeat_interval_ms: applied,
            ..EdgeScrollConfig::default()
        };
        assert_eq!(settled.effective_repeat_interval_ms(&animation), applied);
        let config = FlowConfig {
            animation,
            edge_scroll: settled,
            ..FlowConfig::default()
        };
        assert_eq!(config.validate(), Ok(()));
    }
}

#[test]
fn progress_only_moves_forward() {
    let batch = AnimationBatch::new(vec![], 10, 100);
    let mut last = 0;
    for now in 90..130 {
        let p = batch.progress(now);
        assert!(p.elapsed >= last && p.elapsed <= p.total);
        assert_eq!(p.is_complete(), now >= 110);
        last = p.elapsed;
    }
}

#[test]
fn averages_stay_below_the_longest_interval() {
    let mut recorder = MetricsRecorder::new(6);
    for t in [0, 3, 10, 11, 11, 20] {
        recorder.record_frame(t);
    }
    let m = recorder.compute();
    assert_eq!(m.worst_interval_ns, 9);
    assert_eq!(m.p95_interval_ns, 9);
    assert_eq!(m.jank_count, 2);
    assert!(m.total_interval_ns <= 5 * u128::from(m.worst_interval_ns));
    assert_eq!(m.total_interval_ns, 20);
}

#[test]
fn tiles_equal_their_transpose_whatever_the_coverage_function() {
    let lopsided = |u: usize, v: usize, _: usize, _: usize, _: bool| (u * 16 + v) as u8;
    for r in 0..12 {
        for t in 0..=r + 2 {
            let tile = render_corner_coverage(r, t, &lopsided);
            assert_eq!(tile.len(), r * r);
            assert_eq!(tile, render_corner_coverage(r, t.min(r), &lopsided));
            for y in 0..r {
                for x in 0..r {
                    assert_eq!(tile[y * r + x], tile[x * r + y]);
                }
            }
        }
    }
}
