use codepulse::model::{AppSettings, WindowAnchor, WindowPlacement};
use codepulse::window::{
    resize_is_defined, restore_is_defined, settle_is_defined,
    find_monitor_by_name, pick_monitor, MonitorPick, placement_at, resized_window_position, restore_window_position,
    settle_move, snap_to_edges, WorkArea,
};

const AREA: WorkArea = WorkArea {
    x: 0,
    y: 0,
    width: 1920,
    height: 1080,
};

#[test]
fn resizing_keeps_the_nearer_edge() {
    // near the right edge: the right edge stays
    assert_eq!(resized_window_position(AREA, 1616, 24, 280, 72, 560, 360), (1336, 24));
    // near the left edge: the left edge stays
    assert_eq!(resized_window_position(AREA, 24, 24, 280, 72, 560, 360), (24, 24));
    // near the bottom: the bottom stays, clamped into the area
    assert_eq!(resized_window_position(AREA, 24, 1000, 280, 72, 560, 360), (24, 712));
    // a window partly outside is brought back
    assert_eq!(resized_window_position(AREA, -50, 0, 280, 72, 280, 72), (0, 0));
}

#[test]
fn restore_uses_default_or_remembered_corner() {
    assert_eq!(restore_window_position(AREA, 280, 72, &None), (1920 - 280 - 24, 24));
    let p = |anchor, x, y| {
        Some(WindowPlacement {
            monitor_name: None,
            anchor,
            offset_x: x,
            offset_y: y,
            scale_factor_bits: 1.0f64.to_bits(),
        })
    };
    assert_eq!(restore_window_position(AREA, 280, 72, &p(WindowAnchor::TopLeft, 10, 20)), (10, 20));
    assert_eq!(restore_window_position(AREA, 280, 72, &p(WindowAnchor::BottomLeft, 10, 20)), (10, 1080 - 72 - 20));
    assert_eq!(
        restore_window_position(AREA, 280, 72, &p(WindowAnchor::BottomRight, 10, 20)),
        (1920 - 280 - 10, 1080 - 72 - 20)
    );
    assert_eq!(restore_window_position(AREA, 280, 72, &p(WindowAnchor::TopLeft, 5000, -5)), (1640, 0));
}

#[test]
fn snapping_pulls_to_edges_within_threshold() {
    assert_eq!(snap_to_edges(AREA, 280, 72, 10, 500, 16), (0, 500));
    assert_eq!(snap_to_edges(AREA, 280, 72, 1630, 1000, 16), (1640, 1008));
    assert_eq!(snap_to_edges(AREA, 280, 72, 16, 16, 16), (16, 16));
}

#[test]
fn placement_records_nearest_corner() {
    let p = placement_at(AREA, 280, 72, 1600, 900, Some("DP-1".to_string()), 2.0f64.to_bits());
    assert_eq!(p.anchor, WindowAnchor::BottomRight);
    assert_eq!((p.offset_x, p.offset_y), (40, 108));
    assert_eq!(p.monitor_name.as_deref(), Some("DP-1"));
    assert_eq!(f64::from_bits(p.scale_factor_bits), 2.0);
    let p = placement_at(AREA, 280, 72, 30, 40, None, 0);
    assert_eq!(p.anchor, WindowAnchor::TopLeft);
    assert_eq!((p.offset_x, p.offset_y), (30, 40));
}

#[test]
fn restore_returns_to_the_recorded_position() {
    for (x, y) in [(0, 0), (30, 40), (1600, 900), (1640, 1008), (800, 100)] {
        let p = placement_at(AREA, 280, 72, x, y, None, 0);
        assert_eq!(restore_window_position(AREA, 280, 72, &Some(p)), (x, y));
    }
}

#[test]
fn settling_a_move_follows_the_settings() {
    let mut s = AppSettings::default();
    let o = settle_move(&s, AREA, 280, 72, 10, 500, 16, None, 0);
    assert_eq!(o.snapped_to, Some((0, 500)));
    assert_eq!(o.placement.unwrap().offset_x, 0);
    let o = settle_move(&s, AREA, 280, 72, 100, 500, 16, None, 0);
    assert_eq!(o.snapped_to, None);
    s.edge_snap = false;
    let o = settle_move(&s, AREA, 280, 72, 10, 500, 16, None, 0);
    assert_eq!(o.snapped_to, None);
    assert_eq!(o.placement.unwrap().offset_x, 10);
    s.remember_position = false;
    s.edge_snap = true;
    let o = settle_move(&s, AREA, 280, 72, 10, 500, 16, None, 0);
    assert!(o.placement.is_none());
    assert_eq!(o.snapped_to, Some((0, 500)));
}

#[test]
fn monitor_is_found_by_name() {
    let names = vec![None, Some("A".to_string()), Some("B".to_string()), Some("B".to_string())];
    assert_eq!(find_monitor_by_name(&names, "B"), Some(2));
    assert_eq!(find_monitor_by_name(&names, "C"), None);
}

#[test]
fn geometry_checks_reject_overflow_and_missing_room() {
    assert!(resize_is_defined(AREA, 1616, 24, 280, 72, 560, 360));
    assert!(!resize_is_defined(AREA, 1616, 24, 280, 72, 4000, 360));
    let far = WorkArea {
        x: i32::MAX - 100,
        y: 0,
        width: 1920,
        height: 1080,
    };
    assert!(!resize_is_defined(far, 0, 0, 280, 72, 280, 72));
    assert!(restore_is_defined(AREA, 280, 72, &None));
    assert!(!restore_is_defined(AREA, 3000, 72, &None));
    assert!(!restore_is_defined(far, 280, 72, &None));
    let s = AppSettings::default();
    assert!(settle_is_defined(&s, AREA, 280, 72, 10, 500, 16));
    assert!(!settle_is_defined(&s, far, 280, 72, 10, 500, 16));
}

#[test]
fn snapped_position_does_not_snap_again() {
    for (x, y) in [(10, 500), (1630, 1000), (5, 5), (800, 1070), (16, 16)] {
        let once = snap_to_edges(AREA, 280, 72, x, y, 16);
        let twice = snap_to_edges(AREA, 280, 72, once.0, once.1, 16);
        assert_eq!(once, twice);
    }
    let narrow = WorkArea {
        x: 0,
        y: 0,
        width: 290,
        height: 80,
    };
    let once = snap_to_edges(narrow, 280, 72, 3, 3, 16);
    assert_eq!(once, (10, 8));
    assert_eq!(snap_to_edges(narrow, 280, 72, once.0, once.1, 16), once);
}

#[test]
fn collapsing_keeps_the_right_edge_near_the_right() {
    let (x, _) = resized_window_position(AREA, 1336, 24, 560, 360, 280, 72);
    assert_eq!(x + 280, 1336 + 560);
}

#[test]
fn monitor_choice_prefers_name_then_primary_then_first() {
    let names = vec![None, Some("A".to_string()), Some("B".to_string())];
    assert_eq!(pick_monitor(&names, Some("B"), true), Some(MonitorPick::Listed(2)));
    assert_eq!(pick_monitor(&names, Some("C"), true), Some(MonitorPick::Primary));
    assert_eq!(pick_monitor(&names, None, true), Some(MonitorPick::Primary));
    assert_eq!(pick_monitor(&names, Some("C"), false), Some(MonitorPick::Listed(0)));
    assert_eq!(pick_monitor(&vec![], None, false), None);
}
