use codepulse::model::{
    AppSettings, CodexStatus, HealthLevel, ProviderHealth, StatusSnapshot, ThreadConfidence,
    ThreadState, WindowAnchor, WindowPlacement,
};
use codepulse::session::{
    menu_command, menu_entries, placement_save_due, settings_after_command, snapshots_differ, status_label,
    tooltip_text, MenuCommand, MenuEntry, PollWatch, SettingsSession,
};

fn snapshot(aggregate: CodexStatus, message: &str, at: i64) -> StatusSnapshot {
    StatusSnapshot {
        aggregate,
        threads: vec![ThreadState {
            id: "a".to_string(),
            title: "t".to_string(),
            status: aggregate,
            status_since: 1,
            last_changed_at: 2,
            confidence: ThreadConfidence::Normal,
        }],
        health: ProviderHealth {
            level: HealthLevel::Healthy,
            message: message.to_string(),
            last_successful_read: Some(at),
        },
        observed_at: at,
    }
}

#[test]
fn cancel_returns_to_settings_before_first_preview() {
    let mut session = SettingsSession::new(AppSettings::default());
    let mut first = AppSettings::default();
    first.always_on_top = false;
    first.window_x = Some(3);
    first.window_y = Some(4);
    let shown = session.preview(first);
    assert_eq!(shown.window_x, None);
    assert_eq!(shown.placement.unwrap().offset_x, 3);
    let mut second = AppSettings::default();
    second.animations = false;
    session.preview(second);
    let back = session.cancel_preview();
    assert_eq!(back, AppSettings::default());
    assert!(session.preview_original.is_none());
    assert_eq!(session.cancel_preview(), AppSettings::default());
}

#[test]
fn commit_ends_the_preview() {
    let mut session = SettingsSession::new(AppSettings::default());
    let mut next = AppSettings::default();
    next.launch_at_startup = true;
    session.preview(next.clone());
    session.commit(next.clone());
    assert_eq!(session.settings, next);
    assert_eq!(session.cancel_preview(), next);
    session.remember_placement(WindowPlacement {
        monitor_name: None,
        anchor: WindowAnchor::BottomLeft,
        offset_x: 1,
        offset_y: 2,
        scale_factor_bits: 0,
    });
    assert_eq!(session.settings.placement.as_ref().unwrap().anchor, WindowAnchor::BottomLeft);
}

#[test]
fn menu_ids_map_to_commands() {
    assert_eq!(menu_command("toggle"), MenuCommand::ToggleWindow);
    assert_eq!(menu_command("settings"), MenuCommand::OpenSettings);
    assert_eq!(menu_command("top"), MenuCommand::ToggleAlwaysOnTop);
    assert_eq!(menu_command("startup"), MenuCommand::ToggleLaunchAtStartup);
    assert_eq!(menu_command("quit"), MenuCommand::Quit);
    assert_eq!(menu_command("Quit"), MenuCommand::Ignore);
    for entry in menu_entries(&AppSettings::default()) {
        match entry {
            MenuEntry::Item { id, .. } | MenuEntry::Check { id, .. } => {
                assert_ne!(menu_command(id), MenuCommand::Ignore)
            }
            MenuEntry::Separator => {}
        }
    }
}

#[test]
fn menu_shows_current_check_marks() {
    let mut s = AppSettings::default();
    s.launch_at_startup = true;
    s.always_on_top = false;
    let entries = menu_entries(&s);
    assert_eq!(entries.len(), 6);
    assert_eq!(entries[1], MenuEntry::Check { id: "top", label: "始终置顶", checked: false });
    assert_eq!(entries[2], MenuEntry::Check { id: "startup", label: "开机启动", checked: true });
    assert_eq!(entries[5], MenuEntry::Item { id: "quit", label: "退出 CodePulse" });
}

#[test]
fn toggles_flip_one_setting_and_twice_restore() {
    let s = AppSettings::default();
    let t = settings_after_command(&s, MenuCommand::ToggleAlwaysOnTop).unwrap();
    assert!(!t.always_on_top);
    assert_eq!(t.launch_at_startup, s.launch_at_startup);
    let back = settings_after_command(&t, MenuCommand::ToggleAlwaysOnTop).unwrap();
    assert_eq!(back, s);
    let u = settings_after_command(&s, MenuCommand::ToggleLaunchAtStartup).unwrap();
    assert!(u.launch_at_startup);
    assert!(settings_after_command(&s, MenuCommand::Quit).is_none());
}

#[test]
fn labels_and_tooltip() {
    assert_eq!(status_label(CodexStatus::Offline), "离线");
    assert_eq!(status_label(CodexStatus::Idle), "空闲");
    assert_eq!(status_label(CodexStatus::Thinking), "思考中");
    assert_eq!(status_label(CodexStatus::Executing), "执行中");
    assert_eq!(status_label(CodexStatus::WaitingApproval), "等待确认");
    assert_eq!(status_label(CodexStatus::Completed), "已完成");
    assert_eq!(status_label(CodexStatus::Failed), "执行失败");
    assert_eq!(tooltip_text(CodexStatus::Thinking), "CodePulse · 思考中");
}

#[test]
fn snapshots_differ_ignores_times() {
    let a = snapshot(CodexStatus::Thinking, "ok", 1);
    let b = snapshot(CodexStatus::Thinking, "ok", 2);
    assert!(!snapshots_differ(&a, &b));
    let c = snapshot(CodexStatus::Executing, "ok", 1);
    assert!(snapshots_differ(&a, &c));
    let d = snapshot(CodexStatus::Thinking, "other", 1);
    assert!(snapshots_differ(&a, &d));
    let mut e = snapshot(CodexStatus::Thinking, "ok", 1);
    e.threads[0].title = "renamed".to_string();
    assert!(snapshots_differ(&a, &e));
}

#[test]
fn poll_announces_changes_and_new_health_once() {
    let mut watch = PollWatch::new();
    let a = snapshot(CodexStatus::Thinking, "ok", 1);
    let b = snapshot(CodexStatus::Failed, "ok", 2);
    let first = watch.observe(&a, &b);
    assert!(first.status_changed);
    assert_eq!(first.tooltip.as_deref(), Some("CodePulse · 执行失败"));
    assert!(first.health_changed);
    let second = watch.observe(&b, &b);
    assert!(!second.status_changed);
    assert!(second.tooltip.is_none());
    assert!(!second.health_changed);
    let c = snapshot(CodexStatus::Failed, "changed", 3);
    assert!(watch.observe(&b, &c).health_changed);
}

#[test]
fn only_the_latest_scheduled_save_runs() {
    assert!(placement_save_due(4, 4));
    assert!(!placement_save_due(4, 5));
}
