//! Geometry and errors.
use flow_wm::common::{Direction, FlowError, InvisibleBounds, Rect, WindowId};

#[test]
fn display_config_error() {
    let err = FlowError::Config("bad yaml".into());
    assert_eq!(err.to_string(), "config error: bad yaml");
}

#[test]
fn display_layout_error() {
    let err = FlowError::Layout("no focused window".into());
    assert_eq!(err.to_string(), "layout error: no focused window");
}

#[test]
fn display_registry_error() {
    let err = FlowError::Registry("window not found".into());
    assert_eq!(err.to_string(), "registry error: window not found");
}

#[test]
fn rect_overlaps_self() {
    let r = Rect {
        x: 0,
        y: 0,
        width: 100,
        height: 100,
    };
    assert!(r.overlaps(r));
}

#[test]
fn rect_no_overlap_disjoint() {
    let a = Rect {
        x: 0,
        y: 0,
        width: 50,
        height: 50,
    };
    let b = Rect {
        x: 100,
        y: 100,
        width: 50,
        height: 50,
    };
    assert!(!a.overlaps(b));
}

#[test]
fn rect_is_empty() {
    assert!(
        Rect {
            x: 0,
            y: 0,
            width: 0,
            height: 10
        }
        .is_empty()
    );
    assert!(
        !Rect {
            x: 0,
            y: 0,
            width: 1,
            height: 1
        }
        .is_empty()
    );
}

#[test]
fn rect_is_empty_negative_width() {
    assert!(
        Rect {
            x: 0,
            y: 0,
            width: -5,
            height: 100
        }
        .is_empty()
    );
}

#[test]
fn rect_is_empty_negative_height() {
    assert!(
        Rect {
            x: 0,
            y: 0,
            width: 100,
            height: -1
        }
        .is_empty()
    );
}

#[test]
fn rect_right_and_bottom() {
    assert_eq!(
        Rect {
            x: 10,
            y: 20,
            width: 100,
            height: 200
        }
        .right(),
        110
    );
    assert_eq!(
        Rect {
            x: 10,
            y: 20,
            width: 100,
            height: 200
        }
        .bottom(),
        220
    );
}

#[test]
fn rect_overlaps_adjacent_no_overlap() {
    let a = Rect {
        x: 0,
        y: 0,
        width: 100,
        height: 100,
    };
    let b = Rect {
        x: 100,
        y: 0,
        width: 100,
        height: 100,
    };
    assert!(!a.overlaps(b));
}

#[test]
fn rect_overlaps_partial() {
    let a = Rect {
        x: 0,
        y: 0,
        width: 100,
        height: 100,
    };
    let b = Rect {
        x: 50,
        y: 50,
        width: 100,
        height: 100,
    };
    assert!(a.overlaps(b));
    assert!(b.overlaps(a));
}

#[test]
fn rect_overlaps_contained() {
    let outer = Rect {
        x: 0,
        y: 0,
        width: 100,
        height: 100,
    };
    let inner = Rect {
        x: 25,
        y: 25,
        width: 50,
        height: 50,
    };
    assert!(outer.overlaps(inner));
}

#[test]
fn direction_equality() {
    assert_eq!(Direction::Left, Direction::Left);
    assert_ne!(Direction::Left, Direction::Right);
}

#[test]
fn window_id_hashable() {
    let mut set = std::collections::HashSet::new();
    set.insert(WindowId(1));
    set.insert(WindowId(2));
    assert!(set.contains(&WindowId(1)));
    assert!(!set.contains(&WindowId(3)));
}

#[test]
fn window_id_clone_and_copy() {
    let id = WindowId(42);
    let copy = id;
    assert_eq!(id, copy);
}

#[test]
fn invisible_bounds_zero_all_zeros() {
    let b = InvisibleBounds::zero();
    assert_eq!(b.left, 0);
    assert_eq!(b.top, 0);
    assert_eq!(b.right, 0);
    assert_eq!(b.bottom, 0);
}

#[test]
fn invisible_bounds_default_is_zero() {
    assert_eq!(InvisibleBounds::default(), InvisibleBounds::zero());
}

#[test]
fn invisible_bounds_visible_to_window_expands() {
    let bounds = InvisibleBounds {
        left: 7,
        top: 0,
        right: 7,
        bottom: 7,
    };
    let visible = Rect {
        x: 100,
        y: 0,
        width: 800,
        height: 600,
    };
    let window = bounds.visible_to_window(visible);
    assert_eq!(window.x, 93);
    assert_eq!(window.y, 0);
    assert_eq!(window.width, 814);
    assert_eq!(window.height, 607);
}

#[test]
fn invisible_bounds_window_to_visible_shrinks() {
    let bounds = InvisibleBounds {
        left: 7,
        top: 0,
        right: 7,
        bottom: 7,
    };
    let window = Rect {
        x: 93,
        y: 0,
        width: 814,
        height: 607,
    };
    let visible = bounds.window_to_visible(window);
    assert_eq!(visible.x, 100);
    assert_eq!(visible.y, 0);
    assert_eq!(visible.width, 800);
    assert_eq!(visible.height, 600);
}

#[test]
fn invisible_bounds_roundtrip_visible_to_window_to_visible() {
    let bounds = InvisibleBounds {
        left: 7,
        top: 3,
        right: 7,
        bottom: 7,
    };
    let original = Rect {
        x: 500,
        y: 200,
        width: 1000,
        height: 800,
    };
    let roundtrip = bounds.window_to_visible(bounds.visible_to_window(original));
    assert_eq!(original, roundtrip);
}

#[test]
fn invisible_bounds_zero_bounds_is_identity() {
    let bounds = InvisibleBounds::zero();
    let rect = Rect {
        x: 100,
        y: 200,
        width: 300,
        height: 400,
    };
    assert_eq!(bounds.visible_to_window(rect), rect);
    assert_eq!(bounds.window_to_visible(rect), rect);
}

#[test]
fn invisible_bounds_asymmetric() {
    let bounds = InvisibleBounds {
        left: 7,
        top: 0,
        right: 7,
        bottom: 7,
    };
    let visible = Rect {
        x: 0,
        y: 0,
        width: 100,
        height: 100,
    };
    let window = bounds.visible_to_window(visible);
    assert_eq!(window.y, 0);
    assert_eq!(window.x, -7);
    assert_eq!(window.width, 114);
    assert_eq!(window.height, 107);
}

#[test]
fn display_io_error() {
    let err = FlowError::Io("denied".to_string());
    assert_eq!(err.to_string(), "I/O error: denied");
}

#[test]
fn invisible_bounds_roundtrip_window_to_visible_to_window() {
    let bounds = InvisibleBounds { left: 7, top: 3, right: 7, bottom: 7 };
    let window = Rect { x: -7, y: 0, width: 20, height: 30 };
    assert_eq!(bounds.visible_to_window(bounds.window_to_visible(window)), window);
}
