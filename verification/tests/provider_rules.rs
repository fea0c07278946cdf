use codepulse::events::ReducedEvent;
use codepulse::model::{CodexStatus, HealthLevel, ThreadConfidence, ThreadState};
use codepulse::provider::{
    any_codex_process, any_relevant_change, assess_thread, degraded_snapshot, is_codex_process,
    is_relevant_change, offer_thread, offline_snapshot, saturating_difference, select_state_db,
    snapshot_after_read, thread_query, threads_snapshot, ChangedPath, ThreadRow,
    MAX_VISIBLE_THREADS,
};

const NOW: i64 = 1_800_000_000_000;

fn row(id: &str, updated_at: i64) -> ThreadRow {
    ThreadRow {
        id: id.to_string(),
        title: format!("title {id}"),
        updated_at,
    }
}

fn reduced(status: CodexStatus, at: i64, malformed: bool) -> Option<(ReducedEvent, bool)> {
    Some((ReducedEvent { status, at }, malformed))
}

fn thread(id: &str, status: CodexStatus, confidence: ThreadConfidence) -> ThreadState {
    ThreadState {
        id: id.to_string(),
        title: id.to_string(),
        status,
        status_since: 1,
        last_changed_at: 1,
        confidence,
    }
}

fn strings(v: &[&str]) -> Vec<String> {
    v.iter().map(|s| s.to_string()).collect()
}

#[test]
fn saturating_difference_saturates() {
    assert_eq!(saturating_difference(10, 3), 7);
    assert_eq!(saturating_difference(i64::MIN, 1), i64::MIN);
    assert_eq!(saturating_difference(i64::MAX, -1), i64::MAX);
}

#[test]
fn thread_with_event_takes_its_status_and_time() {
    let t = assess_thread(NOW, row("a", NOW - 500_000), reduced(CodexStatus::Executing, NOW - 1000, false)).unwrap();
    assert_eq!(t.status, CodexStatus::Executing);
    assert_eq!(t.status_since, NOW - 1000);
    assert_eq!(t.last_changed_at, NOW - 1000);
    assert_eq!(t.confidence, ThreadConfidence::Normal);
    assert_eq!(t.id, "a");
    let t = assess_thread(NOW, row("a", NOW), reduced(CodexStatus::Thinking, NOW, true)).unwrap();
    assert_eq!(t.confidence, ThreadConfidence::Limited);
}

#[test]
fn completion_and_failure_fade_to_idle() {
    let t = assess_thread(NOW, row("a", NOW - 1000), reduced(CodexStatus::Completed, NOW - 8000, false)).unwrap();
    assert_eq!(t.status, CodexStatus::Completed);
    let t = assess_thread(NOW, row("a", NOW - 1000), reduced(CodexStatus::Completed, NOW - 8001, false)).unwrap();
    assert_eq!(t.status, CodexStatus::Idle);
    let t = assess_thread(NOW, row("a", NOW - 1000), reduced(CodexStatus::Failed, NOW - 15000, false)).unwrap();
    assert_eq!(t.status, CodexStatus::Failed);
    let t = assess_thread(NOW, row("a", NOW - 1000), reduced(CodexStatus::Failed, NOW - 15001, false)).unwrap();
    assert_eq!(t.status, CodexStatus::Idle);
    let faded = assess_thread(NOW, row("a", NOW - 120_000), reduced(CodexStatus::Completed, NOW - 9000, false));
    assert!(faded.is_none());
}

#[test]
fn threads_without_events_follow_the_database() {
    let t = assess_thread(NOW, row("a", NOW - 11_999), None).unwrap();
    assert_eq!(t.status, CodexStatus::Thinking);
    assert_eq!(t.confidence, ThreadConfidence::Limited);
    assert_eq!(t.status_since, NOW - 11_999);
    let t = assess_thread(NOW, row("a", NOW - 12_000), None).unwrap();
    assert_eq!(t.status, CodexStatus::Idle);
    assert!(assess_thread(NOW, row("a", NOW - 120_000), None).is_none());
}

#[test]
fn visibility_windows_by_status() {
    let approval = reduced(CodexStatus::WaitingApproval, NOW - 86_399_999, false);
    assert!(assess_thread(NOW, row("a", 0), approval).is_some());
    let approval = reduced(CodexStatus::WaitingApproval, NOW - 86_400_000, false);
    assert!(assess_thread(NOW, row("a", 0), approval).is_none());
    let busy = reduced(CodexStatus::Executing, NOW - 3_599_999, false);
    assert!(assess_thread(NOW, row("a", 0), busy).is_some());
    let busy = reduced(CodexStatus::Executing, NOW - 3_600_000, false);
    assert!(assess_thread(NOW, row("a", 0), busy).is_none());
}

#[test]
fn at_most_eight_threads_are_collected() {
    let mut threads = Vec::new();
    let mut offered = 0;
    loop {
        offered += 1;
        let full = offer_thread(&mut threads, NOW, row("t", NOW), None);
        if full {
            break;
        }
    }
    assert_eq!(offered, MAX_VISIBLE_THREADS);
    assert_eq!(threads.len(), 8);
    let mut threads = Vec::new();
    assert!(!offer_thread(&mut threads, NOW, row("old", 0), None));
    assert!(threads.is_empty());
}

#[test]
fn snapshot_aggregate_is_the_most_urgent_status() {
    let s = threads_snapshot(
        7,
        vec![
            thread("a", CodexStatus::Thinking, ThreadConfidence::Normal),
            thread("b", CodexStatus::Failed, ThreadConfidence::Normal),
            thread("c", CodexStatus::WaitingApproval, ThreadConfidence::Normal),
        ],
    );
    assert_eq!(s.aggregate, CodexStatus::Failed);
    assert_eq!(s.health.level, HealthLevel::Healthy);
    assert_eq!(s.health.message, "状态探测正常");
    assert_eq!(s.health.last_successful_read, Some(7));
    assert_eq!(s.observed_at, 7);
    assert_eq!(s.threads.len(), 3);
    let empty = threads_snapshot(7, vec![]);
    assert_eq!(empty.aggregate, CodexStatus::Idle);
}

#[test]
fn limited_threads_degrade_health() {
    let s = threads_snapshot(
        7,
        vec![
            thread("a", CodexStatus::Idle, ThreadConfidence::Normal),
            thread("b", CodexStatus::Thinking, ThreadConfidence::Limited),
        ],
    );
    assert_eq!(s.aggregate, CodexStatus::Thinking);
    assert_eq!(s.health.level, HealthLevel::Degraded);
    assert_eq!(s.health.message, "部分线程仅能提供有限状态");
}

#[test]
fn offline_and_degraded_snapshots() {
    let s = offline_snapshot(9);
    assert_eq!(s.aggregate, CodexStatus::Offline);
    assert_eq!(s.health.level, HealthLevel::Unavailable);
    assert_eq!(s.health.message, "Codex 未运行");
    assert!(s.threads.is_empty());
    let d = degraded_snapshot(9, "disk error");
    assert_eq!(d.aggregate, CodexStatus::Idle);
    assert_eq!(d.health.level, HealthLevel::Degraded);
    assert_eq!(d.health.message, "已降级为进程探测：disk error");
    assert_eq!(d.health.last_successful_read, None);
    let r = snapshot_after_read(9, Err("x".to_string()));
    assert_eq!(r.health.message, "已降级为进程探测：x");
    let r = snapshot_after_read(9, Ok(vec![thread("a", CodexStatus::Completed, ThreadConfidence::Normal)]));
    assert_eq!(r.aggregate, CodexStatus::Completed);
}

#[test]
fn query_adapts_to_columns() {
    let q = thread_query(&strings(&["id", "title", "rollout_path", "updated_at_ms", "archived", "updated_at"])).unwrap();
    assert_eq!(
        q,
        "SELECT id, COALESCE(title, '未命名任务'), rollout_path, COALESCE(updated_at_ms, 0) FROM threads WHERE archived = 0 ORDER BY COALESCE(updated_at_ms, 0) DESC LIMIT 16"
    );
    let q = thread_query(&strings(&["id", "updated_at"])).unwrap();
    assert_eq!(
        q,
        "SELECT id, '未命名任务', NULL, COALESCE(updated_at * 1000, 0) FROM threads  ORDER BY COALESCE(updated_at * 1000, 0) DESC LIMIT 16"
    );
    let q = thread_query(&strings(&["id"])).unwrap();
    assert_eq!(q, "SELECT id, '未命名任务', NULL, 0 FROM threads  ORDER BY 0 DESC LIMIT 16");
    let e = thread_query(&strings(&["title"])).unwrap_err();
    assert_eq!(e, "threads 表结构不兼容");
}

#[test]
fn newest_state_database_is_chosen() {
    let names = strings(&["state_3.sqlite", "state_12.sqlite", "notes.txt", "state_5.sqlite-wal", "state_7.sqlite"]);
    assert_eq!(select_state_db(&names), Ok(1));
    let ties = strings(&["state_x.sqlite", "state_.sqlite", "state_+0.sqlite"]);
    assert_eq!(select_state_db(&ties), Ok(2));
    let plus = strings(&["state_+9.sqlite", "state_8.sqlite", "state_99999999999.sqlite"]);
    assert_eq!(select_state_db(&plus), Ok(0));
    assert_eq!(
        select_state_db(&strings(&["other.sqlite", "state_1.db"])),
        Err("未找到兼容的 Codex 状态数据库".to_string())
    );
}

#[test]
fn codex_processes_are_recognized() {
    assert!(is_codex_process("codex"));
    assert!(is_codex_process("Codex.EXE"));
    assert!(is_codex_process("codex-tui"));
    assert!(!is_codex_process("codexx"));
    assert!(!is_codex_process("my-codex"));
    assert!(any_codex_process(&strings(&["bash", "CODEX"])));
    assert!(!any_codex_process(&strings(&["bash", "zsh"])));
}

#[test]
fn relevant_changes_are_recognized() {
    let p = |name: Option<&str>, ext: Option<&str>| ChangedPath {
        file_name: name.map(|s| s.to_string()),
        extension: ext.map(|s| s.to_string()),
    };
    assert!(is_relevant_change(&p(Some("rollout.jsonl"), Some("jsonl"))));
    assert!(is_relevant_change(&p(Some("state_5.sqlite"), Some("sqlite"))));
    assert!(is_relevant_change(&p(Some("state_5.sqlite-shm"), Some("sqlite-shm"))));
    assert!(is_relevant_change(&p(Some("state_5.db-wal"), Some("db-wal"))));
    assert!(!is_relevant_change(&p(Some("config.toml"), Some("toml"))));
    assert!(!is_relevant_change(&p(Some("sessions"), None)));
    assert!(any_relevant_change(&vec![p(None, None), p(Some("a.jsonl"), Some("jsonl"))]));
    assert!(!any_relevant_change(&vec![p(None, None)]));
}

#[test]
fn lines_are_split_at_line_feeds() {
    let lines = codepulse::text::split_lines("a\r\nb\n\nc\rd\n");
    assert_eq!(lines, vec!["a".to_string(), "b".to_string(), String::new(), "c\rd".to_string()]);
    let direct: Vec<String> = "a\r\nb\n\nc\rd\n".lines().map(str::to_string).collect();
    assert_eq!(lines, direct);
}
