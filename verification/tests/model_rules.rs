use codepulse::model::{
    yes, AppSettings, CodexStatus, WindowAnchor, WindowPlacement, EDGE_GAP,
};

fn legacy_settings() -> AppSettings {
    AppSettings {
        opacity_bits: 0.83f64.to_bits(),
        animations: false,
        always_on_top: true,
        edge_snap: true,
        launch_at_startup: false,
        remember_position: true,
        double_click_focus: true,
        show_provider_warnings: true,
        placement: None,
        window_x: Some(120),
        window_y: Some(80),
        paused: true,
    }
}

#[test]
fn migrates_legacy_coordinates_and_preserves_values() {
    let settings = legacy_settings();
    let migrated = settings.normalized();
    assert_eq!(f64::from_bits(migrated.opacity_bits), 0.83);
    assert!(!migrated.animations);
    assert!(!migrated.paused);
    assert_eq!(migrated.placement.unwrap().offset_x, 120);
}

#[test]
fn priority_matches_product_contract() {
    assert!(CodexStatus::Failed.priority() > CodexStatus::WaitingApproval.priority());
    assert!(CodexStatus::WaitingApproval.priority() > CodexStatus::Executing.priority());
    assert!(CodexStatus::Executing.priority() > CodexStatus::Thinking.priority());
}

#[test]
fn priorities_are_exact_and_distinct() {
    let all = [
        (CodexStatus::Offline, 0u8),
        (CodexStatus::Idle, 1),
        (CodexStatus::Completed, 2),
        (CodexStatus::Thinking, 3),
        (CodexStatus::Executing, 4),
        (CodexStatus::WaitingApproval, 5),
        (CodexStatus::Failed, 6),
    ];
    for (status, rank) in all {
        assert_eq!(status.priority(), rank);
    }
}

#[test]
fn migration_builds_top_left_placement_and_clears_legacy_fields() {
    let migrated = legacy_settings().normalized();
    let placement = migrated.placement.clone().unwrap();
    assert_eq!(placement.anchor, WindowAnchor::TopLeft);
    assert_eq!(placement.offset_y, 80);
    assert_eq!(placement.monitor_name, None);
    assert_eq!(f64::from_bits(placement.scale_factor_bits), 1.0);
    assert_eq!(migrated.window_x, None);
    assert_eq!(migrated.window_y, None);
    assert!(migrated.always_on_top);
}

#[test]
fn migration_keeps_an_existing_placement() {
    let mut settings = legacy_settings();
    settings.placement = Some(WindowPlacement {
        monitor_name: Some("DP-1".to_string()),
        anchor: WindowAnchor::BottomRight,
        offset_x: 5,
        offset_y: 6,
        scale_factor_bits: 1.5f64.to_bits(),
    });
    let migrated = settings.normalized();
    let placement = migrated.placement.unwrap();
    assert_eq!(placement.anchor, WindowAnchor::BottomRight);
    assert_eq!(placement.offset_x, 5);
    assert_eq!(f64::from_bits(placement.scale_factor_bits), 1.5);
    assert_eq!(migrated.window_x, None);
}

#[test]
fn migration_needs_both_coordinates() {
    let mut settings = legacy_settings();
    settings.window_y = None;
    let migrated = settings.normalized();
    assert!(migrated.placement.is_none());
    assert_eq!(migrated.window_x, None);
}

#[test]
fn normalizing_twice_is_normalizing_once() {
    let once = legacy_settings().normalized();
    let twice = once.clone().normalized();
    assert_eq!(once, twice);
}

#[test]
fn defaults_match_first_start() {
    let s = AppSettings::default();
    assert!(s.animations && s.always_on_top && s.edge_snap);
    assert!(!s.launch_at_startup);
    assert!(s.remember_position && s.double_click_focus && s.show_provider_warnings);
    assert!(s.placement.is_none() && !s.paused);
    assert_eq!(f64::from_bits(s.opacity_bits), 0.94);
    let p = WindowPlacement::default();
    assert_eq!(p.anchor, WindowAnchor::TopRight);
    assert_eq!((p.offset_x, p.offset_y), (EDGE_GAP, EDGE_GAP));
    assert_eq!(f64::from_bits(p.scale_factor_bits), 1.0);
    assert_eq!(WindowAnchor::default(), WindowAnchor::TopRight);
    assert!(yes());
}

#[test]
fn remembered_placement_follows_the_setting() {
    let mut s = legacy_settings().normalized();
    assert!(s.remembered_placement().is_some());
    s.remember_position = false;
    assert!(s.remembered_placement().is_none());
    assert!(s.follows_window_moves());
    s.edge_snap = false;
    assert!(!s.follows_window_moves());
}
