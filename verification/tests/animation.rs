//! Animation: geometry, requests, the worker and frame timing.
use flow_wm::animation::animator::{
    queried_rect, AnimatorCmd, PendingBatch, WindowAnimator, WorkerState,
};
use flow_wm::animation::backend::mock::{MockBackend, MockCall, MockState};
use flow_wm::animation::backend::win32::Win32Backend;
use flow_wm::animation::backend::WindowBackend;
use flow_wm::animation::batch::{build_tweens, AnimationBatch, Progress, WindowTween};
use flow_wm::animation::config::{
    AnimatorConfig, FramePacing, InterruptPolicy, PositionAnimation, SizeAnimation,
};
use flow_wm::animation::easing::{position_curve, size_curve};
use flow_wm::animation::interpolation::{is_noop, is_translation_only};
use flow_wm::animation::metrics::{FrameMetrics, MetricsRecorder};
use flow_wm::animation::types::{
    AnimationError, AnimationHandle, IVec2, Rect, WindowRef, WindowTarget,
};
use flow_wm::borders::border::Edges;
use flow_wm::config::ConfigEasing;
use std::collections::HashMap;

const MS: u64 = 1_000_000;

fn make_config() -> AnimatorConfig {
    AnimatorConfig::default()
}

fn target(id: isize, x: i32, y: i32, w: i32, h: i32) -> WindowTarget {
    WindowTarget::new(WindowRef(id), IVec2::new(x, y), IVec2::new(w, h))
}

fn from_rect(id: isize, x: i32, y: i32, w: i32, h: i32) -> (WindowRef, Rect) {
    (WindowRef(id), Rect::new(x, y, w, h))
}

#[test]
fn ivec2_new_stores_components() {
    let v = IVec2::new(3, -7);
    assert_eq!(v.x, 3);
    assert_eq!(v.y, -7);
}

#[test]
fn rect_position_and_size() {
    let r = Rect::new(10, 20, 800, 600);
    assert_eq!(r.position(), IVec2::new(10, 20));
    assert_eq!(r.size(), IVec2::new(800, 600));
}

#[test]
fn rect_validity() {
    assert!(Rect::new(0, 0, 100, 100).is_valid());
    assert!(!Rect::new(0, 0, -1, 100).is_valid());
}

#[test]
fn window_target_as_rect() {
    let t = WindowTarget::new(WindowRef(42), IVec2::new(50, 60), IVec2::new(400, 300));
    assert_eq!(t.as_rect(), Rect::new(50, 60, 400, 300));
}

#[test]
fn is_noop_identical_rects() {
    let r = Rect::new(0, 0, 100, 100);
    assert!(is_noop(&r, &r));
}

#[test]
fn is_noop_different_position() {
    let from = Rect::new(0, 0, 100, 100);
    let to = Rect::new(10, 0, 100, 100);
    assert!(!is_noop(&from, &to));
}

#[test]
fn is_translation_only_same_size() {
    let from = Rect::new(0, 0, 100, 200);
    let to = Rect::new(50, 50, 100, 200);
    assert!(is_translation_only(&from, &to));
}

#[test]
fn is_translation_only_different_size() {
    let from = Rect::new(0, 0, 100, 200);
    let to = Rect::new(0, 0, 150, 200);
    assert!(!is_translation_only(&from, &to));
}

#[test]
fn is_translation_only_noop_is_also_translation_only() {
    let r = Rect::new(10, 10, 80, 80);
    assert!(is_translation_only(&r, &r));
}

#[test]
fn build_tweens_filters_noop_windows() {
    let targets = vec![
        target(1, 0, 0, 100, 100),
        target(2, 50, 50, 100, 100),
    ];
    let from_rects = vec![from_rect(1, 0, 0, 100, 100), from_rect(2, 0, 0, 100, 100)];
    let tweens = build_tweens(&targets, &from_rects, &make_config());
    assert_eq!(tweens.len(), 1);
    assert_eq!(tweens[0].window_ref, WindowRef(2));
}

#[test]
fn build_tweens_size_skip_true_when_size_unchanged_and_disabled_if_unchanged() {
    let targets = vec![target(1, 100, 100, 200, 200)];
    let from_rects = vec![from_rect(1, 0, 0, 200, 200)];
    let config = AnimatorConfig {
        size_animation: SizeAnimation::DisabledIfUnchanged,
        ..AnimatorConfig::default()
    };
    let tweens = build_tweens(&targets, &from_rects, &config);
    assert_eq!(tweens.len(), 1);
    assert!(tweens[0].size_skip, "expected size_skip=true");
}

#[test]
fn build_tweens_size_skip_false_when_size_changes_even_with_disabled_if_unchanged() {
    let targets = vec![target(1, 0, 0, 300, 300)];
    let from_rects = vec![from_rect(1, 0, 0, 200, 200)];
    let config = AnimatorConfig {
        size_animation: SizeAnimation::DisabledIfUnchanged,
        ..AnimatorConfig::default()
    };
    let tweens = build_tweens(&targets, &from_rects, &config);
    assert_eq!(tweens.len(), 1);
    assert!(!tweens[0].size_skip, "expected size_skip=false");
}

#[test]
fn build_tweens_skips_windows_not_in_from_rects() {
    let targets = vec![target(99, 10, 10, 100, 100)];
    let from_rects: Vec<(WindowRef, Rect)> = vec![];
    let tweens = build_tweens(&targets, &from_rects, &make_config());
    assert!(tweens.is_empty());
}

#[test]
fn default_config_has_sensible_values() {
    let c = AnimatorConfig::default();
    assert_eq!(c.duration_ns, 250 * MS);
    assert_eq!(c.position_animation, PositionAnimation::EaseInOut);
    assert_eq!(c.size_animation, SizeAnimation::Linear);
    assert_eq!(c.interrupt_policy, InterruptPolicy::RetargetFromCurrent);
    assert_eq!(c.frame_pacing, FramePacing::DwmFlush);
    assert!(c.jank_threshold_ns > 0);
}

#[test]
fn config_is_clone() {
    let c = AnimatorConfig::default();
    let c2 = c.clone();
    assert_eq!(c, c2);
}

#[test]
fn defaults_are_zero() {
    assert_eq!(IVec2::default(), IVec2::new(0, 0));
    assert_eq!(Rect::default(), Rect::new(0, 0, 0, 0));
}

fn make_batch(dur_ms: u64) -> AnimationBatch {
    AnimationBatch::new(vec![], dur_ms * MS, 1_000 * MS)
}

#[test]
fn progress_is_zero_at_start() {
    let p = make_batch(500).progress(1_000 * MS);
    assert_eq!(p, Progress { elapsed: 0, total: 500 * MS });
    assert!(!p.is_complete());
}

#[test]
fn progress_clamps_to_one_after_duration() {
    assert!(make_batch(0).progress(1_000 * MS).is_complete());
}

#[test]
fn progress_clamps_to_exactly_one_after_real_duration() {
    let p = make_batch(5).progress(1_020 * MS);
    assert_eq!(p, Progress { elapsed: 5 * MS, total: 5 * MS });
    assert!(make_batch(5).progress(1_005 * MS).is_complete());
    assert!(!make_batch(5).progress(1_005 * MS - 1).is_complete());
}

#[test]
fn progress_never_exceeds_one_even_well_past_duration() {
    let p = make_batch(1).progress(u64::MAX);
    assert_eq!(p.elapsed, p.total);
    let early = make_batch(1).progress(0);
    assert_eq!(early.elapsed, 0);
}

#[test]
fn progress_is_always_one_for_zero_duration() {
    for now in [0, 1_000 * MS, 5_000 * MS] {
        assert!(make_batch(0).progress(now).is_complete());
    }
}

#[test]
fn new_backend_has_empty_calls() {
    let backend = MockBackend::new();
    assert!(backend.state().calls.is_empty());
    assert!(MockBackend::default().state.calls.is_empty());
}

#[test]
fn get_window_rect_records_call_for_known_window() {
    let mut backend = MockBackend::with_state(MockState {
        rects: HashMap::from([(10, Rect::new(0, 0, 100, 200))]),
        ..MockState::default()
    });
    let rect = backend.get_window_rect(WindowRef(10)).unwrap();
    assert_eq!(rect, Rect::new(0, 0, 100, 200));
    assert_eq!(
        backend.state.calls,
        vec![MockCall::GetWindowRect(WindowRef(10))]
    );
}

#[test]
fn get_window_rect_returns_err_for_unknown_window() {
    let mut backend = MockBackend::new();
    let result = backend.get_window_rect(WindowRef(99));
    assert!(matches!(result, Err(AnimationError::Backend(_))));
}

#[test]
fn apply_batch_records_all_pairs() {
    let mut backend = MockBackend::new();
    let updates = vec![
        (WindowRef(1), Rect::new(0, 0, 800, 600)),
        (WindowRef(2), Rect::new(800, 0, 800, 600)),
    ];
    backend.apply_batch(&updates).unwrap();
    assert_eq!(backend.state.calls, vec![MockCall::ApplyBatch(updates)]);
}

#[test]
fn apply_batch_gives_the_prepared_error() {
    let mut backend = MockBackend::new();
    backend.state.apply_batch_result = Some(AnimationError::Backend("denied".to_string()));
    assert_eq!(
        backend.apply_batch(&[]),
        Err(AnimationError::Backend("denied".to_string()))
    );
}

#[test]
fn dwm_flush_records_the_call() {
    let mut backend = MockBackend::new();
    backend.dwm_flush().unwrap();
    assert_eq!(backend.state.calls, vec![MockCall::DwmFlush]);
}

#[test]
fn errors_in_words() {
    assert_eq!(
        AnimationError::Backend("x".to_string()).to_string(),
        "backend error: x"
    );
    assert_eq!(
        AnimationError::EmptyBatch.to_string(),
        "animation batch must contain at least one window"
    );
    assert_eq!(
        AnimationError::WorkerDead.to_string(),
        "animator worker thread is not running"
    );
    assert_eq!(
        AnimationError::Backend("x".to_string()).copied(),
        AnimationError::Backend("x".to_string())
    );
}

#[test]
fn win32_results_keep_the_first_error() {
    let backend = Win32Backend::new();
    assert_eq!(backend.batch_result(vec![]), Ok(()));
    assert_eq!(backend.batch_result(vec![Ok(()), Ok(())]), Ok(()));
    assert_eq!(
        backend.batch_result(vec![Ok(()), Err("a".to_string()), Err("b".to_string())]),
        Err(AnimationError::Backend("a".to_string()))
    );
    assert_eq!(
        backend.window_rect(Ok(Edges { left: 1, top: 2, right: 11, bottom: 22 })),
        Ok(Rect::new(1, 2, 10, 20))
    );
    assert_eq!(
        backend.window_rect(Err("gone".to_string())),
        Err(AnimationError::Backend("gone".to_string()))
    );
    assert_eq!(Win32Backend::default(), Win32Backend);
}

#[test]
fn curves_follow_the_configuration() {
    assert_eq!(position_curve(&PositionAnimation::Linear), ConfigEasing::Linear);
    assert_eq!(
        position_curve(&PositionAnimation::EaseInOut),
        ConfigEasing::EaseInOutCubic
    );
    assert_eq!(
        position_curve(&PositionAnimation::EaseOutCubic),
        ConfigEasing::EaseOutCubic
    );
    assert_eq!(
        position_curve(&PositionAnimation::EaseOutExpo),
        ConfigEasing::EaseOutExpo
    );
    assert_eq!(
        position_curve(&PositionAnimation::EaseElastic),
        ConfigEasing::EaseOutElastic
    );
    assert_eq!(size_curve(&SizeAnimation::Linear, true), Some(ConfigEasing::Linear));
    assert_eq!(
        size_curve(&SizeAnimation::EaseInOut, true),
        Some(ConfigEasing::EaseInOutCubic)
    );
    assert_eq!(size_curve(&SizeAnimation::DisabledIfUnchanged, true), None);
    assert_eq!(
        size_curve(&SizeAnimation::DisabledIfUnchanged, false),
        Some(ConfigEasing::Linear)
    );
}

fn linear(tween: WindowTween, _config: AnimatorConfig, p: Progress) -> Rect {
    let at = |from: i32, to: i32| -> i32 {
        let t = p.elapsed as f64 / p.total as f64;
        f64::from(to - from).mul_add(t, f64::from(from)).round() as i32
    };
    let (a, b) = (tween.from_rect, tween.to_rect);
    Rect::new(at(a.x, b.x), at(a.y, b.y), at(a.w, b.w), at(a.h, b.h))
}

fn two_windows() -> MockBackend {
    MockBackend::with_state(MockState {
        rects: HashMap::from([
            (1, Rect::new(0, 0, 100, 100)),
            (2, Rect::new(100, 0, 100, 100)),
        ]),
        ..MockState::default()
    })
}

fn config(duration_ms: u64, interrupt_policy: InterruptPolicy) -> AnimatorConfig {
    AnimatorConfig {
        duration_ns: duration_ms * MS,
        interrupt_policy,
        ..AnimatorConfig::default()
    }
}

fn animate(targets: Vec<WindowTarget>, config: AnimatorConfig) -> AnimatorCmd {
    AnimatorCmd::Animate { targets, config }
}

fn target_w1() -> Vec<WindowTarget> {
    vec![WindowTarget::new(
        WindowRef(1),
        IVec2::new(500, 500),
        IVec2::new(200, 200),
    )]
}

#[test]
fn animator_starts_idle() {
    let worker = WorkerState::new(AnimatorConfig::default());
    assert!(!worker.is_animating(), "new animator should not be animating");
}

#[test]
fn animate_empty_batch_returns_error() {
    let mut animator = WindowAnimator::new(AnimatorConfig::default());
    let result = animator.animate(vec![]);
    assert!(
        matches!(result, Err(AnimationError::EmptyBatch)),
        "expected EmptyBatch, got {result:?}"
    );
}

#[test]
fn animate_returns_handle() {
    let mut animator = WindowAnimator::new(AnimatorConfig::default());
    let result = animator.animate(target_w1());
    assert!(result.is_ok(), "expected Ok(handle), got {result:?}");
    let (handle, _) = result.unwrap();
    assert!(handle.0 >= 1, "handle ID should be >= 1");
    assert_eq!(WindowAnimator::submitted(handle, true), Ok(handle));
    assert_eq!(
        WindowAnimator::submitted(handle, false),
        Err(AnimationError::WorkerDead)
    );
    let (second, _) = animator.animate(target_w1()).unwrap();
    assert_eq!((handle, second), (AnimationHandle(1), AnimationHandle(2)));
}

#[test]
fn cancel_stops_animation() {
    let mut worker = WorkerState::new(AnimatorConfig::default());
    let mut backend = two_windows();
    let cfg = config(50, InterruptPolicy::QueueAfterCurrent);
    assert!(worker.handle_command(&mut backend, animate(target_w1(), cfg), 0, &linear));
    assert!(worker.handle_command(&mut backend, animate(target_w1(), cfg), 0, &linear));
    assert!(worker.is_animating());
    assert_eq!(worker.queue.len(), 1);
    let animator = WindowAnimator::new(cfg);
    assert!(worker.handle_command(&mut backend, animator.cancel(), 10 * MS, &linear));
    assert!(
        !worker.is_animating(),
        "animator should not be animating after cancel"
    );
    assert!(worker.queue.is_empty());
    assert!(worker.tick(&mut backend, 20 * MS, &linear).is_none());
}

#[test]
fn zero_duration_animation_completes_instantly() {
    let mut worker = WorkerState::new(AnimatorConfig::default());
    let mut backend = two_windows();
    let cfg = config(0, InterruptPolicy::RetargetFromCurrent);
    worker.handle_command(&mut backend, animate(target_w1(), cfg), 7, &linear);
    assert!(worker.is_animating());
    let report = worker.tick(&mut backend, 7, &linear).unwrap();
    assert!(report.progress.is_complete());
    assert_eq!(
        report.frame,
        vec![(WindowRef(1), Rect::new(500, 500, 200, 200))]
    );
    assert_eq!(report.applied, Ok(()));
    assert!(
        !worker.is_animating(),
        "animator with zero-duration config should complete instantly \
         and not be animating after a short delay"
    );
    assert!(
        backend
            .state
            .calls
            .iter()
            .any(|c| matches!(c, MockCall::ApplyBatch(_))),
        "zero-duration animation should still have applied at least one batch"
    );
}

#[test]
fn update_config_switches_to_runtime_duration() {
    let snap = config(0, InterruptPolicy::RetargetFromCurrent);
    let mut animator = WindowAnimator::new(snap);
    let mut worker = WorkerState::new(snap);
    let mut backend = two_windows();
    let (_, cmd) = animator.animate(target_w1()).unwrap();
    worker.handle_command(&mut backend, cmd, 0, &linear);
    worker.tick(&mut backend, 0, &linear);
    assert!(
        !worker.is_animating(),
        "after zero-duration snap, animator should be idle"
    );
    let runtime = config(250, InterruptPolicy::RetargetFromCurrent);
    let update = animator.update_config(runtime);
    worker.handle_command(&mut backend, update, 20 * MS, &linear);
    assert_eq!(worker.config, runtime);
    let targets = vec![WindowTarget::new(
        WindowRef(1),
        IVec2::new(0, 0),
        IVec2::new(960, 1080),
    )];
    let (_, cmd) = animator.animate(targets).unwrap();
    worker.handle_command(&mut backend, cmd, 20 * MS, &linear);
    worker.tick(&mut backend, 35 * MS, &linear);
    assert!(
        worker.is_animating(),
        "after update_config to 250ms, subsequent animate should be in-progress \
         (not instant)"
    );
}

#[test]
fn update_config_does_not_affect_inflight_animation() {
    let mut worker = WorkerState::new(AnimatorConfig::default());
    let mut backend = two_windows();
    let cfg = config(200, InterruptPolicy::RetargetFromCurrent);
    worker.handle_command(&mut backend, animate(target_w1(), cfg), 0, &linear);
    worker.tick(&mut backend, 15 * MS, &linear);
    assert!(worker.is_animating());
    let zero = config(0, InterruptPolicy::RetargetFromCurrent);
    worker.handle_command(&mut backend, AnimatorCmd::UpdateConfig(zero), 15 * MS, &linear);
    worker.tick(&mut backend, 25 * MS, &linear);
    assert!(
        worker.is_animating(),
        "changing config mid-flight should not cancel the active animation"
    );
    assert_eq!(worker.active.as_ref().unwrap().config, cfg);
}

#[test]
fn drop_new_policy_discards_second_animate() {
    let cfg = config(200, InterruptPolicy::DropNew);
    let mut animator = WindowAnimator::new(cfg);
    let mut worker = WorkerState::new(cfg);
    let mut backend = two_windows();
    let (h1, cmd) = animator
        .animate(target_w1())
        .expect("first animate should succeed");
    worker.handle_command(&mut backend, cmd, 0, &linear);
    assert!(worker.is_animating(), "should be animating after first call");
    let second_targets = vec![WindowTarget::new(
        WindowRef(2),
        IVec2::new(0, 0),
        IVec2::new(50, 50),
    )];
    let (h2, cmd) = animator
        .animate(second_targets)
        .expect("second animate should return Ok");
    assert_ne!(h1.0, h2.0, "handles should have distinct IDs");
    worker.handle_command(&mut backend, cmd, 15 * MS, &linear);
    assert!(
        worker.is_animating(),
        "animation should still be running under DropNew policy"
    );
    let tweens = &worker.active.as_ref().unwrap().batch.tweens;
    assert_eq!(tweens.len(), 1);
    assert_eq!(tweens[0].window_ref, WindowRef(1));
    assert!(worker.queue.is_empty());
}

#[test]
fn retargeting_starts_from_the_current_position() {
    let cfg = config(100, InterruptPolicy::RetargetFromCurrent);
    let mut worker = WorkerState::new(cfg);
    let mut backend = two_windows();
    let right = vec![target(1, 100, 0, 100, 100), target(2, 200, 0, 100, 100)];
    worker.handle_command(&mut backend, animate(right, cfg), 0, &linear);
    let back = vec![target(1, 0, 0, 100, 100)];
    worker.handle_command(&mut backend, animate(back, cfg), 50 * MS, &linear);
    let active = worker.active.as_ref().unwrap();
    assert_eq!(active.batch.start_ns, 50 * MS);
    assert_eq!(active.batch.tweens.len(), 1);
    assert_eq!(active.batch.tweens[0].from_rect, Rect::new(50, 0, 100, 100));
    assert_eq!(active.batch.tweens[0].to_rect, Rect::new(0, 0, 100, 100));
}

#[test]
fn frames_move_on_and_end_on_the_target() {
    let cfg = config(100, InterruptPolicy::RetargetFromCurrent);
    let mut worker = WorkerState::new(cfg);
    let mut backend = two_windows();
    worker.handle_command(
        &mut backend,
        animate(vec![target(1, 100, 0, 100, 100)], cfg),
        0,
        &linear,
    );
    let halfway = worker.tick(&mut backend, 50 * MS, &linear).unwrap();
    assert_eq!(halfway.frame, vec![(WindowRef(1), Rect::new(50, 0, 100, 100))]);
    assert_eq!(backend.state.calls.last(), Some(&MockCall::DwmFlush));
    let last = worker.tick(&mut backend, 170 * MS, &linear).unwrap();
    assert_eq!(last.frame, vec![(WindowRef(1), Rect::new(100, 0, 100, 100))]);
    assert!(!worker.is_animating());
    assert_ne!(backend.state.calls.last(), Some(&MockCall::DwmFlush));
}

#[test]
fn queued_requests_play_in_order_and_skip_what_has_nothing_to_move() {
    let cfg = config(100, InterruptPolicy::QueueAfterCurrent);
    let mut worker = WorkerState::new(cfg);
    let mut backend = two_windows();
    worker.handle_command(
        &mut backend,
        animate(vec![target(1, 100, 0, 100, 100)], cfg),
        0,
        &linear,
    );
    for t in [
        target(2, 100, 0, 100, 100),
        target(2, 300, 0, 100, 100),
        target(2, 400, 0, 100, 100),
    ] {
        worker.handle_command(&mut backend, animate(vec![t], cfg), 10 * MS, &linear);
    }
    assert_eq!(worker.queue.len(), 3);
    worker.tick(&mut backend, 100 * MS, &linear);
    let active = worker.active.as_ref().unwrap();
    assert_eq!(active.batch.tweens[0].to_rect, Rect::new(300, 0, 100, 100));
    assert_eq!(active.batch.start_ns, 100 * MS);
    assert_eq!(worker.queue.len(), 1);
    worker.tick(&mut backend, 200 * MS, &linear);
    assert_eq!(
        worker.active.as_ref().unwrap().batch.tweens[0].to_rect,
        Rect::new(400, 0, 100, 100)
    );
    worker.tick(&mut backend, 300 * MS, &linear);
    assert!(!worker.is_animating());
    assert!(worker.queue.is_empty());
}

#[test]
fn a_request_with_nothing_to_move_starts_nothing() {
    let cfg = config(100, InterruptPolicy::RetargetFromCurrent);
    let mut worker = WorkerState::new(cfg);
    let mut backend = two_windows();
    worker.handle_command(
        &mut backend,
        animate(vec![target(1, 0, 0, 100, 100)], cfg),
        0,
        &linear,
    );
    assert!(!worker.is_animating());
    let started = worker.activate(
        PendingBatch {
            targets: vec![target(1, 0, 0, 100, 100)],
            config: cfg,
        },
        &vec![(WindowRef(1), Rect::new(5, 0, 100, 100))],
        3,
    );
    assert!(started);
}

#[test]
fn unknown_windows_start_from_the_empty_rect() {
    let cfg = config(100, InterruptPolicy::RetargetFromCurrent);
    let mut worker = WorkerState::new(cfg);
    let mut backend = MockBackend::new();
    worker.handle_command(
        &mut backend,
        animate(vec![target(9, 1, 2, 3, 4)], cfg),
        0,
        &linear,
    );
    assert_eq!(
        worker.active.as_ref().unwrap().batch.tweens[0].from_rect,
        Rect::default()
    );
    assert_eq!(queried_rect(&Ok(Rect::new(1, 2, 3, 4))), Rect::new(1, 2, 3, 4));
    assert_eq!(queried_rect(&Err(AnimationError::WorkerDead)), Rect::default());
}

#[test]
fn shutdown_ends_the_worker() {
    let mut worker = WorkerState::new(AnimatorConfig::default());
    let mut backend = MockBackend::new();
    assert!(!worker.handle_command(&mut backend, AnimatorCmd::Shutdown, 0, &linear));
}

#[test]
fn zero_frames_returns_default() {
    let recorder = MetricsRecorder::new(25 * MS);
    let m = recorder.compute();
    assert_eq!(m.frame_count, 0);
    assert_eq!(m.total_interval_ns, 0);
    assert_eq!(m.jank_count, 0);
}

#[test]
fn one_frame_returns_default() {
    let mut recorder = MetricsRecorder::new(25 * MS);
    recorder.record_frame(3);
    let m = recorder.compute();
    assert_eq!(m.frame_count, 0);
    assert_eq!(m, FrameMetrics::default());
}

#[test]
fn multiple_frames_returns_valid_stats() {
    let mut recorder = MetricsRecorder::new(25 * MS);
    for i in 0..5 {
        recorder.record_frame(i * 5 * MS);
    }
    let m = recorder.compute();
    assert_eq!(m.frame_count, 5);
    assert_eq!(m.total_interval_ns, 20 * MS as u128);
    assert_eq!(m.worst_interval_ns, 5 * MS);
    assert_eq!(m.p95_interval_ns, 5 * MS);
}

#[test]
fn jank_count_correctly_counts_above_threshold() {
    let mut recorder = MetricsRecorder::new(8 * MS);
    for at in [0, 5, 10, 20, 25] {
        recorder.record_frame(1_000 * MS + at * MS);
    }
    let m = recorder.compute();
    assert_eq!(m.frame_count, 5);
    assert_eq!(m.jank_count, 1, "expected exactly 1 jank interval");
    assert_eq!(m.worst_interval_ns, 10 * MS);
    assert_eq!(m.total_interval_ns, 25 * MS as u128);
    assert_eq!(m.p95_interval_ns, 10 * MS);
}

#[test]
fn jank_count_zero_when_all_intervals_below_threshold() {
    let mut recorder = MetricsRecorder::new(100 * MS);
    for at in [0, 10, 20] {
        recorder.record_frame(at * MS);
    }
    assert_eq!(recorder.compute().jank_count, 0);
}

#[test]
fn percentile_is_taken_from_the_sorted_intervals() {
    let mut recorder = MetricsRecorder::new(0);
    let mut now = 0;
    recorder.record_frame(now);
    for gap in (1..=40u64).rev() {
        now += gap;
        recorder.record_frame(now);
    }
    let m = recorder.compute();
    assert_eq!(m.p95_interval_ns, 39);
    assert_eq!(m.worst_interval_ns, 40);
    assert_eq!(m.jank_count, 40);
    assert_eq!(m.total_interval_ns, 820);
}

#[test]
fn the_last_move_of_an_animation_is_to_its_targets() {
    let cfg = config(100, InterruptPolicy::QueueAfterCurrent);
    let mut worker = WorkerState::new(cfg);
    let mut backend = two_windows();
    backend.state.apply_batch_result = Some(AnimationError::Backend("busy".to_string()));
    worker.handle_command(
        &mut backend,
        animate(
            vec![target(1, 100, 0, 100, 100), target(2, 0, 0, 50, 50)],
            cfg,
        ),
        0,
        &linear,
    );
    worker.tick(&mut backend, 50 * MS, &linear);
    worker.handle_command(
        &mut backend,
        AnimatorCmd::UpdateConfig(config(900, InterruptPolicy::DropNew)),
        60 * MS,
        &linear,
    );
    worker.handle_command(
        &mut backend,
        animate(vec![target(2, 100, 0, 100, 100)], cfg),
        70 * MS,
        &linear,
    );
    let report = worker.tick(&mut backend, 100 * MS, &linear).unwrap();
    assert!(report.applied.is_err());
    assert_eq!(
        backend.state.calls,
        vec![
            MockCall::GetWindowRect(WindowRef(1)),
            MockCall::GetWindowRect(WindowRef(2)),
            MockCall::ApplyBatch(vec![
                (WindowRef(1), Rect::new(50, 0, 100, 100)),
                (WindowRef(2), Rect::new(50, 0, 75, 75)),
            ]),
            MockCall::DwmFlush,
            MockCall::ApplyBatch(vec![
                (WindowRef(1), Rect::new(100, 0, 100, 100)),
                (WindowRef(2), Rect::new(0, 0, 50, 50)),
            ]),
            MockCall::GetWindowRect(WindowRef(2)),
        ]
    );
    assert!(!worker.is_animating());
}

#[test]
fn the_first_waiting_request_that_moves_something_reaches_its_targets() {
    let cfg = config(100, InterruptPolicy::QueueAfterCurrent);
    let mut worker = WorkerState::new(cfg);
    let mut backend = two_windows();
    for t in [
        target(1, 100, 0, 100, 100),
        target(2, 100, 0, 100, 100),
        target(2, 300, 0, 100, 100),
    ] {
        worker.handle_command(&mut backend, animate(vec![t], cfg), 0, &linear);
    }
    worker.tick(&mut backend, 100 * MS, &linear);
    worker.tick(&mut backend, 200 * MS, &linear);
    let moves: Vec<&MockCall> = backend
        .state
        .calls
        .iter()
        .filter(|call| matches!(call, MockCall::ApplyBatch(_)))
        .collect();
    assert_eq!(
        moves,
        vec![
            &MockCall::ApplyBatch(vec![(WindowRef(1), Rect::new(100, 0, 100, 100))]),
            &MockCall::ApplyBatch(vec![(WindowRef(2), Rect::new(300, 0, 100, 100))]),
        ]
    );
    assert!(!worker.is_animating());
}

#[test]
fn identifiers_start_at_one_and_grow() {
    let mut animator = WindowAnimator::new(make_config());
    for id in 1..=5 {
        let (handle, _) = animator.animate(target_w1()).unwrap();
        assert_eq!(handle, AnimationHandle(id));
        assert!(animator.animate(Vec::new()).is_err());
    }
    animator.next_id = u64::MAX;
    assert_eq!(animator.animate(target_w1()).unwrap().0, AnimationHandle(u64::MAX));
    assert_eq!(animator.animate(target_w1()).unwrap().0, AnimationHandle(0));
}
