use codepulse::events::{
    rollout_line, rollout_line_from, rollout_lines, time_from, JsonValue,
    classify_event, event_timestamp, reduce_event, EventPayload, EventRecord, JsonField,
    ReadWindow, RolloutCache, RolloutLine, INITIAL_TAIL_BYTES,
};
use codepulse::model::CodexStatus;

fn event(kind: &str, name: Option<&str>) -> EventRecord {
    EventRecord {
        timestamp: Some("2026-07-02T00:00:00Z".to_string()),
        payload: Some(EventPayload {
            kind: JsonField::Text(kind.to_string()),
            name: match name {
                Some(n) => JsonField::Text(n.to_string()),
                None => JsonField::Other,
            },
            tool_name: JsonField::Missing,
        }),
    }
}

#[test]
fn recognizes_all_product_states() {
    assert_eq!(
        reduce_event(&event("task_started", None), 5).unwrap().status,
        CodexStatus::Thinking
    );
    assert_eq!(
        reduce_event(&event("custom_tool_call", Some("shell_command")), 5)
            .unwrap()
            .status,
        CodexStatus::Executing
    );
    assert_eq!(
        reduce_event(&event("custom_tool_call", Some("request_user_input")), 5)
            .unwrap()
            .status,
        CodexStatus::WaitingApproval
    );
    assert_eq!(
        reduce_event(&event("task_complete", None), 5).unwrap().status,
        CodexStatus::Completed
    );
    assert_eq!(
        reduce_event(&event("error", None), 5).unwrap().status,
        CodexStatus::Failed
    );
}

#[test]
fn malformed_lines_do_not_erase_previous_state() {
    let valid = reduce_event(&event("task_started", None), 5);
    assert_eq!(valid.unwrap().status, CodexStatus::Thinking);
    assert!(serde_json::from_str::<serde_json::Value>("not json").is_err());
}

#[test]
fn event_time_comes_from_the_timestamp() {
    let e = reduce_event(&event("task_started", None), 5).unwrap();
    assert_eq!(e.at, 1782950400000);
    assert_eq!(event_timestamp(&event("error", None), 5), 1782950400000);
    let mut with_offset = event("error", None);
    with_offset.timestamp = Some("2026-07-02T02:00:00+02:00".to_string());
    assert_eq!(event_timestamp(&with_offset, 5), 1782950400000);
}

#[test]
fn unparsable_timestamp_falls_back_to_now() {
    let mut e = event("task_started", None);
    e.timestamp = Some("yesterday".to_string());
    assert_eq!(event_timestamp(&e, 42), 42);
    e.timestamp = None;
    assert_eq!(reduce_event(&e, 43).unwrap().at, 43);
}

#[test]
fn classification_of_every_kind() {
    for k in [
        "task_started",
        "user_message",
        "reasoning",
        "function_call_output",
        "custom_tool_call_output",
        "patch_apply_end",
    ] {
        assert_eq!(classify_event(k, ""), Some(CodexStatus::Thinking));
    }
    for k in ["function_call", "custom_tool_call", "patch_apply_begin"] {
        assert_eq!(classify_event(k, ""), Some(CodexStatus::Executing));
    }
    assert_eq!(classify_event("task_complete", ""), Some(CodexStatus::Completed));
    assert_eq!(classify_event("turn_aborted", ""), Some(CodexStatus::Failed));
    assert_eq!(classify_event("token_count", ""), None);
    assert_eq!(classify_event("Task_Started", ""), None);
}

#[test]
fn approval_wins_over_kind_and_ignores_case() {
    assert_eq!(
        classify_event("exec_APPROVAL_request", ""),
        Some(CodexStatus::WaitingApproval)
    );
    assert_eq!(
        classify_event("task_complete", "Request_User_Input"),
        Some(CodexStatus::WaitingApproval)
    );
    assert_eq!(classify_event("function_call", "approv"), Some(CodexStatus::Executing));
}

#[test]
fn tool_name_counts_only_without_name() {
    let mut e = event("function_call", None);
    if let Some(p) = e.payload.as_mut() {
        p.name = JsonField::Missing;
        p.tool_name = JsonField::Text("request_user_input".to_string());
    }
    assert_eq!(reduce_event(&e, 5).unwrap().status, CodexStatus::WaitingApproval);
    if let Some(p) = e.payload.as_mut() {
        p.name = JsonField::Other;
    }
    assert_eq!(reduce_event(&e, 5).unwrap().status, CodexStatus::Executing);
}

#[test]
fn lines_without_payload_announce_nothing() {
    let e = EventRecord {
        timestamp: None,
        payload: None,
    };
    assert!(reduce_event(&e, 5).is_none());
    assert!(reduce_event(&event("session_meta", None), 5).is_none());
}

#[test]
fn first_read_takes_the_tail_and_drops_the_cut_line() {
    let mut cache = RolloutCache::new();
    let w = cache.begin_read(INITIAL_TAIL_BYTES + 10).unwrap();
    assert_eq!(
        w,
        ReadWindow {
            start: 10,
            skip_first_line: true
        }
    );
    let mut small = RolloutCache::new();
    let w = small.begin_read(100).unwrap();
    assert_eq!(
        w,
        ReadWindow {
            start: 0,
            skip_first_line: false
        }
    );
    assert!(small.begin_read(0).is_none());
}

#[test]
fn cache_keeps_last_event_across_malformed_lines() {
    let mut cache = RolloutCache::new();
    let w = cache.begin_read(50).unwrap();
    cache.finish_read(
        50,
        w,
        &vec![
            RolloutLine::Parsed(event("task_started", None)),
            RolloutLine::Malformed,
            RolloutLine::Parsed(event("token_count", None)),
        ], 5);
    assert_eq!(cache.offset, 50);
    let (last, malformed) = cache.latest().unwrap();
    assert_eq!(last.status, CodexStatus::Thinking);
    assert!(malformed);
    assert!(cache.begin_read(50).is_none());
    let w = cache.begin_read(80).unwrap();
    assert_eq!(
        w,
        ReadWindow {
            start: 50,
            skip_first_line: false
        }
    );
    cache.finish_read(80, w, &vec![RolloutLine::Malformed], 5);
    assert_eq!(cache.latest().unwrap().0.status, CodexStatus::Thinking);
    assert_eq!(cache.malformed_lines, 2);
}

#[test]
fn skipped_first_line_is_not_counted() {
    let mut cache = RolloutCache::new();
    let length = INITIAL_TAIL_BYTES + 1;
    let w = cache.begin_read(length).unwrap();
    cache.finish_read(
        length,
        w,
        &vec![
            RolloutLine::Malformed,
            RolloutLine::Parsed(event("task_complete", None)),
        ], 5);
    assert_eq!(cache.malformed_lines, 0);
    assert_eq!(cache.latest(), Some((reduce_event(&event("task_complete", None), 5).unwrap(), false)));
}

#[test]
fn shrunk_file_is_read_again() {
    let mut cache = RolloutCache::new();
    let w = cache.begin_read(500).unwrap();
    cache.finish_read(500, w, &vec![RolloutLine::Parsed(event("error", None))], 5);
    let w = cache.begin_read(100).unwrap();
    assert_eq!(cache.last, None);
    assert_eq!(
        w,
        ReadWindow {
            start: 0,
            skip_first_line: false
        }
    );
}

#[test]
fn rollout_lines_are_read_from_json_text() {
    let line = r#"{"timestamp":"2026-07-02T00:00:00Z","type":"event_msg","payload":{"type":"custom_tool_call","name":"request_user_input"}}"#;
    let expected = RolloutLine::Parsed(EventRecord {
        timestamp: Some("2026-07-02T00:00:00Z".to_string()),
        payload: Some(EventPayload {
            kind: JsonField::Text("custom_tool_call".to_string()),
            name: JsonField::Text("request_user_input".to_string()),
            tool_name: JsonField::Missing,
        }),
    });
    assert_eq!(rollout_line(line), expected);
    assert_eq!(rollout_line("not json"), RolloutLine::Malformed);
    assert_eq!(rollout_line(""), RolloutLine::Malformed);
    let odd = rollout_line(r#"{"timestamp":12,"payload":{"type":3,"name":null,"tool_name":"x"}}"#);
    assert_eq!(
        odd,
        RolloutLine::Parsed(EventRecord {
            timestamp: None,
            payload: Some(EventPayload {
                kind: JsonField::Other,
                name: JsonField::Other,
                tool_name: JsonField::Text("x".to_string()),
            }),
        })
    );
    let not_object = rollout_line(r#"{"payload":"text"}"#);
    assert_eq!(
        not_object,
        RolloutLine::Parsed(EventRecord {
            timestamp: None,
            payload: Some(EventPayload {
                kind: JsonField::Missing,
                name: JsonField::Missing,
                tool_name: JsonField::Missing,
            }),
        })
    );
    assert_eq!(
        rollout_line("[1, 2]"),
        RolloutLine::Parsed(EventRecord {
            timestamp: None,
            payload: None
        })
    );
}

#[test]
fn parsed_values_map_to_lines() {
    assert_eq!(rollout_line_from(None), RolloutLine::Malformed);
    let v = JsonValue::Object(vec![
        ("timestamp".to_string(), JsonValue::Text("t".to_string())),
        (
            "payload".to_string(),
            JsonValue::Object(vec![("type".to_string(), JsonValue::Text("error".to_string()))]),
        ),
    ]);
    match rollout_line_from(Some(v)) {
        RolloutLine::Parsed(r) => {
            assert_eq!(r.timestamp.as_deref(), Some("t"));
            assert_eq!(reduce_event(&r, 9).unwrap().status, CodexStatus::Failed);
            assert_eq!(reduce_event(&r, 9).unwrap().at, 9);
        }
        RolloutLine::Malformed => panic!("parsed value read as malformed"),
    }
}

#[test]
fn read_lines_from_text_through_the_cache() {
    let mut cache = RolloutCache::new();
    let text = "{\"payload\":{\"type\":\"task_started\"}}\nnot json\n";
    let lines = rollout_lines(text);
    assert_eq!(lines.len(), 2);
    let w = cache.begin_read(text.len() as u64).unwrap();
    cache.finish_read(text.len() as u64, w, &lines, 77);
    assert_eq!(cache.latest().unwrap().0.status, CodexStatus::Thinking);
    assert_eq!(cache.latest().unwrap().0.at, 77);
    assert!(cache.latest().unwrap().1);
}

#[test]
fn rollout_text_splits_like_str_lines() {
    let text = "not json\r\n{}\n\nlast\r";
    let lines = rollout_lines(text);
    let expected: Vec<RolloutLine> = text.lines().map(rollout_line).collect();
    assert_eq!(lines, expected);
    assert_eq!(lines.len(), 4);
    assert_eq!(lines[0], RolloutLine::Malformed);
    assert_eq!(
        lines[1],
        RolloutLine::Parsed(EventRecord {
            timestamp: None,
            payload: None
        })
    );
    assert!(rollout_lines("").is_empty());
    assert_eq!(rollout_lines("\n").len(), 1);
}

#[test]
fn time_falls_back_to_now_only_without_parsed_value() {
    assert_eq!(time_from(Some(3), 9), 3);
    assert_eq!(time_from(None, 9), 9);
}
