use agent_mascot::error::AppError;
use agent_mascot::models::event::{EventSource, EventType, Severity};
use agent_mascot::services::normalizer::{
    derive_agent_id, event_fingerprint, generate_fingerprint, normalize,
};
use serde_json::Value;
use std::collections::hash_map::DefaultHasher;
use std::hash::{Hash, Hasher};

fn s(text: &str) -> Value {
    Value::String(text.to_string())
}

fn obj(members: Vec<(&str, Value)>) -> Value {
    let mut m = serde_json::Map::new();
    for (k, v) in members {
        m.insert(k.to_string(), v);
    }
    Value::Object(m)
}

fn meta() -> Value {
    obj(vec![
        ("workspace_id", s("my-project")),
        ("terminal_session_id", s("term-1")),
        ("collected_at", s("2026-02-20T15:00:00Z")),
    ])
}

fn norm(raw: &Value) -> Result<agent_mascot::models::event::NormalizedEvent, AppError> {
    normalize(raw, "evt_test_000001".to_string(), "2026-03-01T00:00:00+00:00")
}

fn reference_fingerprint(session_id: &str, tool_name: &str, ts: &str, payload: &Value) -> String {
    let mut hasher = DefaultHasher::new();
    session_id.hash(&mut hasher);
    tool_name.hash(&mut hasher);
    let ts_bucket = if ts.len() >= 19 { &ts[..19] } else { ts };
    ts_bucket.hash(&mut hasher);
    let payload_str = payload.to_string();
    payload_str.hash(&mut hasher);
    format!("{:016x}", hasher.finish())
}

#[test]
fn test_normalize_subagent_start() {
    let raw = obj(vec![
        ("hook_type", s("SubagentStart")),
        ("session_id", s("sess-1")),
        ("agent_name", s("worker-01")),
        ("agent_type", s("general-purpose")),
        ("team_name", s("my-project")),
        ("prompt", s("do something")),
        ("_meta", meta()),
    ]);
    let event = norm(&raw).expect("should normalize");
    assert_eq!(event.event_type, EventType::AgentStarted);
    assert_eq!(event.agent_id, "my-project/worker-01");
    assert_eq!(event.workspace_id, "my-project");
    assert_eq!(event.source, EventSource::Hook);
}

#[test]
fn test_normalize_subagent_stop() {
    let raw = obj(vec![
        ("hook_type", s("SubagentStop")),
        ("session_id", s("sess-1")),
        ("agent_name", s("worker-01")),
        ("team_name", s("my-project")),
        ("result", s("completed")),
        ("_meta", meta()),
    ]);
    let event = norm(&raw).expect("should normalize");
    assert_eq!(event.event_type, EventType::AgentStopped);
}

#[test]
fn test_normalize_pre_tool_use_basic() {
    let raw = obj(vec![
        ("hook_type", s("PreToolUse")),
        ("session_id", s("sess-1")),
        ("tool_name", s("Read")),
        ("tool_input", obj(vec![("file_path", s("/some/file"))])),
        ("_meta", meta()),
    ]);
    let event = norm(&raw).expect("should normalize");
    assert_eq!(event.event_type, EventType::ToolStarted);
}

#[test]
fn test_normalize_pre_tool_use_task_update_completed() {
    let raw = obj(vec![
        ("hook_type", s("PreToolUse")),
        ("session_id", s("sess-1")),
        ("tool_name", s("TaskUpdate")),
        ("tool_input", obj(vec![("taskId", s("1")), ("status", s("completed"))])),
        ("_meta", meta()),
    ]);
    let event = norm(&raw).expect("should normalize");
    assert_eq!(event.event_type, EventType::TaskCompleted);
}

#[test]
fn test_normalize_post_tool_use_success() {
    let raw = obj(vec![
        ("hook_type", s("PostToolUse")),
        ("session_id", s("sess-1")),
        ("tool_name", s("Read")),
        ("tool_result", s("file contents")),
        ("_meta", meta()),
    ]);
    let event = norm(&raw).expect("should normalize");
    assert_eq!(event.event_type, EventType::ToolSucceeded);
}

#[test]
fn test_normalize_post_tool_use_failure() {
    let raw = obj(vec![
        ("hook_type", s("PostToolUse")),
        ("session_id", s("sess-1")),
        ("tool_name", s("Bash")),
        ("error", s("command failed")),
        ("_meta", meta()),
    ]);
    let event = norm(&raw).expect("should normalize");
    assert_eq!(event.event_type, EventType::ToolFailed);
}

#[test]
fn test_normalize_stop_event() {
    let raw = obj(vec![
        ("hook_type", s("Stop")),
        ("session_id", s("sess-1")),
        ("reason", s("completed")),
        ("summary", s("task done")),
        ("_meta", meta()),
    ]);
    let event = norm(&raw).expect("should normalize");
    assert_eq!(event.event_type, EventType::AgentStopped);
}

#[test]
fn test_normalize_missing_hook_type() {
    let raw = obj(vec![("some", s("data"))]);
    let result = norm(&raw);
    assert!(result.is_err());
}

#[test]
fn test_fingerprint_deterministic() {
    let empty = obj(vec![]);
    let fp1 = generate_fingerprint("sess-1", "Read", "2026-02-20T15:00:00Z", &empty);
    let fp2 = generate_fingerprint("sess-1", "Read", "2026-02-20T15:00:00Z", &empty);
    assert_eq!(fp1, fp2);
}

#[test]
fn test_fingerprint_different_inputs() {
    let empty = obj(vec![]);
    let fp1 = generate_fingerprint("sess-1", "Read", "2026-02-20T15:00:00Z", &empty);
    let fp2 = generate_fingerprint("sess-2", "Read", "2026-02-20T15:00:00Z", &empty);
    assert_ne!(fp1, fp2);
}

#[test]
fn test_agent_id_derivation() {
    assert_eq!(
        derive_agent_id(Some("my-team"), Some("worker-01"), Some("sess-1")),
        "my-team/worker-01"
    );
    assert_eq!(derive_agent_id(Some("my-team"), None, Some("sess-1")), "my-team/leader");
    assert_eq!(derive_agent_id(None, None, Some("sess-1")), "sess-1");
}

#[test]
fn agent_id_falls_back_to_name_then_unknown() {
    assert_eq!(derive_agent_id(None, Some("solo"), Some("sess-1")), "solo");
    assert_eq!(derive_agent_id(None, None, None), "unknown");
    assert_eq!(derive_agent_id(Some("t"), Some("n"), None), "t/n");
}

#[test]
fn missing_hook_type_message() {
    let raw = obj(vec![("some", s("data"))]);
    match norm(&raw) {
        Err(AppError::Normalize(msg)) => assert_eq!(msg, "missing hook_type field"),
        other => panic!("unexpected: {:?}", other),
    }
    let raw = obj(vec![("hook_type", Value::from(5))]);
    match norm(&raw) {
        Err(AppError::Normalize(msg)) => assert_eq!(msg, "missing hook_type field"),
        other => panic!("unexpected: {:?}", other),
    }
    match norm(&Value::Null) {
        Err(AppError::Normalize(msg)) => assert_eq!(msg, "missing hook_type field"),
        other => panic!("unexpected: {:?}", other),
    }
}

#[test]
fn unknown_hook_type_message() {
    let raw = obj(vec![("hook_type", s("SessionStart"))]);
    match norm(&raw) {
        Err(e) => {
            assert_eq!(e.message(), "normalization failed: unknown hook_type: SessionStart");
            assert!(matches!(e, AppError::Normalize(_)));
        }
        Ok(_) => panic!("should fail"),
    }
}

#[test]
fn subagent_start_names_the_agent() {
    let raw = obj(vec![
        ("hook_type", s("SubagentStart")),
        ("team_name", s("proj")),
        ("agent_name", s("w1")),
    ]);
    let event = norm(&raw).expect("should normalize");
    assert_eq!(event.agent_id, "proj/w1");
    assert_eq!(event.event_type, EventType::AgentStarted);
    assert_eq!(event.severity, Severity::Info);
}

#[test]
fn placeholders_for_missing_fields() {
    let raw = obj(vec![("hook_type", s("SubagentStart"))]);
    let event = norm(&raw).expect("should normalize");
    assert_eq!(event.id, "evt_test_000001");
    assert_eq!(event.version, "1.1");
    assert_eq!(event.ts, "2026-03-01T00:00:00+00:00");
    assert_eq!(event.workspace_id, "unknown");
    assert_eq!(event.terminal_session_id, "unknown");
    assert_eq!(event.agent_id, "unknown");
    assert_eq!(event.run_id, None);
    assert_eq!(event.session_id, None);
    assert_eq!(event.target_agent_id, None);
    assert_eq!(event.task_id, None);
    assert_eq!(event.thinking_text, None);
    assert_eq!(
        event.payload,
        obj(vec![("agent_type", s("")), ("prompt_preview", s(""))])
    );
    assert_eq!(event.raw, raw);
}

#[test]
fn meta_fields_are_taken_over() {
    let raw = obj(vec![
        ("hook_type", s("Stop")),
        ("session_id", s("sess-9")),
        ("run_id", s("run-3")),
        ("reason", s("done")),
        ("_meta", meta()),
    ]);
    let event = norm(&raw).expect("should normalize");
    assert_eq!(event.ts, "2026-02-20T15:00:00Z");
    assert_eq!(event.workspace_id, "my-project");
    assert_eq!(event.terminal_session_id, "term-1");
    assert_eq!(event.session_id.as_deref(), Some("sess-9"));
    assert_eq!(event.run_id.as_deref(), Some("run-3"));
    assert_eq!(event.agent_id, "sess-9");
    assert_eq!(event.payload, obj(vec![("reason", s("done")), ("summary", s(""))]));
}

#[test]
fn prompt_preview_is_cut_to_200_characters() {
    let long: String = "é".repeat(250);
    let raw = obj(vec![("hook_type", s("SubagentStart")), ("prompt", s(&long))]);
    let event = norm(&raw).expect("should normalize");
    let preview = event.payload.get("prompt_preview").and_then(|v| v.as_str()).unwrap();
    assert_eq!(preview.chars().count(), 200);
    assert_eq!(preview, "é".repeat(200));
    let short = obj(vec![("hook_type", s("SubagentStart")), ("prompt", s("short"))]);
    let event = norm(&short).expect("should normalize");
    assert_eq!(event.payload.get("prompt_preview"), Some(&s("short")));
}

#[test]
fn task_tool_is_read_further() {
    let update = |status: Option<&str>| {
        let mut input = vec![("taskId", s("42"))];
        if let Some(st) = status {
            input.push(("status", s(st)));
        }
        obj(vec![
            ("hook_type", s("PreToolUse")),
            ("tool_name", s("TaskUpdate")),
            ("tool_input", obj(input)),
        ])
    };
    let e = norm(&update(Some("completed"))).unwrap();
    assert_eq!(e.event_type, EventType::TaskCompleted);
    assert_eq!(e.task_id.as_deref(), Some("42"));
    let e = norm(&update(Some("in_progress"))).unwrap();
    assert_eq!(e.event_type, EventType::TaskStarted);
    assert_eq!(e.task_id.as_deref(), Some("42"));
    let e = norm(&update(Some("pending"))).unwrap();
    assert_eq!(e.event_type, EventType::TaskProgress);
    let e = norm(&update(None)).unwrap();
    assert_eq!(e.event_type, EventType::TaskProgress);
    assert_eq!(e.task_id.as_deref(), Some("42"));
    let create = obj(vec![
        ("hook_type", s("PreToolUse")),
        ("tool_name", s("TaskCreate")),
        ("tool_input", obj(vec![("taskId", s("7"))])),
    ]);
    let e = norm(&create).unwrap();
    assert_eq!(e.event_type, EventType::TaskCreated);
    assert_eq!(e.task_id, None);
}

#[test]
fn pre_tool_use_payload_carries_tool_and_input() {
    let input = obj(vec![("file_path", s("/some/file")), ("n", Value::from(3))]);
    let raw = obj(vec![
        ("hook_type", s("PreToolUse")),
        ("tool_name", s("Read")),
        ("tool_input", input.clone()),
    ]);
    let e = norm(&raw).unwrap();
    assert_eq!(e.payload, obj(vec![("tool_name", s("Read")), ("tool_input", input)]));
    let bare = obj(vec![("hook_type", s("PreToolUse"))]);
    let e = norm(&bare).unwrap();
    assert_eq!(e.event_type, EventType::ToolStarted);
    assert_eq!(e.payload, obj(vec![("tool_name", s("")), ("tool_input", obj(vec![]))]));
}

#[test]
fn post_tool_use_failure_payload() {
    let raw = obj(vec![
        ("hook_type", s("PostToolUse")),
        ("tool_name", s("Bash")),
        ("error", s("command failed")),
        ("exit_code", Value::from(-2)),
    ]);
    let e = norm(&raw).unwrap();
    assert_eq!(e.event_type, EventType::ToolFailed);
    assert_eq!(e.severity, Severity::Warn);
    assert_eq!(
        e.payload,
        obj(vec![
            ("tool_name", s("Bash")),
            ("error_message", s("command failed")),
            ("exit_code", Value::from(-2)),
        ])
    );
    let raw = obj(vec![
        ("hook_type", s("PostToolUse")),
        ("tool_name", s("Bash")),
        ("error", obj(vec![("code", Value::from(1))])),
        ("exit_code", s("one")),
    ]);
    let e = norm(&raw).unwrap();
    assert_eq!(e.event_type, EventType::ToolFailed);
    assert_eq!(
        e.payload,
        obj(vec![
            ("tool_name", s("Bash")),
            ("error_message", s("unknown error")),
            ("exit_code", Value::Null),
        ])
    );
    let raw = obj(vec![
        ("hook_type", s("PostToolUse")),
        ("error", s("x")),
        ("exit_code", Value::from(7)),
    ]);
    let e = norm(&raw).unwrap();
    assert_eq!(e.payload.get("exit_code"), Some(&Value::from(7)));
}

#[test]
fn post_tool_use_null_error_is_success() {
    let raw = obj(vec![
        ("hook_type", s("PostToolUse")),
        ("tool_name", s("Read")),
        ("error", Value::Null),
    ]);
    let e = norm(&raw).unwrap();
    assert_eq!(e.event_type, EventType::ToolSucceeded);
    assert_eq!(e.severity, Severity::Info);
    assert_eq!(e.payload, obj(vec![("tool_name", s("Read"))]));
}

#[test]
fn notification_severity_follows_level() {
    let with_level = |level: Option<&str>| {
        let mut members = vec![("hook_type", s("Notification")), ("message", s("hello"))];
        if let Some(l) = level {
            members.push(("level", s(l)));
        }
        norm(&obj(members)).unwrap()
    };
    assert_eq!(with_level(Some("error")).severity, Severity::Error);
    assert_eq!(with_level(Some("warn")).severity, Severity::Warn);
    assert_eq!(with_level(Some("debug")).severity, Severity::Debug);
    assert_eq!(with_level(Some("info")).severity, Severity::Info);
    assert_eq!(with_level(Some("loud")).severity, Severity::Info);
    let e = with_level(None);
    assert_eq!(e.severity, Severity::Info);
    assert_eq!(e.event_type, EventType::Notification);
    assert_eq!(e.payload, obj(vec![("message", s("hello"))]));
}

#[test]
fn thinking_text_from_either_field() {
    let raw = obj(vec![("hook_type", s("Stop")), ("thinking", s("first"))]);
    assert_eq!(norm(&raw).unwrap().thinking_text.as_deref(), Some("first"));
    let raw = obj(vec![("hook_type", s("Stop")), ("extended_thinking", s("second"))]);
    assert_eq!(norm(&raw).unwrap().thinking_text.as_deref(), Some("second"));
    let raw = obj(vec![
        ("hook_type", s("Stop")),
        ("thinking", s("first")),
        ("extended_thinking", s("second")),
    ]);
    assert_eq!(norm(&raw).unwrap().thinking_text.as_deref(), Some("first"));
    let raw = obj(vec![
        ("hook_type", s("Stop")),
        ("thinking", Value::from(1)),
        ("extended_thinking", s("second")),
    ]);
    assert_eq!(norm(&raw).unwrap().thinking_text.as_deref(), Some("second"));
}

#[test]
fn fingerprint_is_sixteen_hex_digits_of_the_std_hash() {
    let payload = obj(vec![("tool_name", s("Read")), ("tool_input", obj(vec![]))]);
    let cases = [
        ("sess-1", "Read", "2026-02-20T15:00:00Z"),
        ("", "", ""),
        ("sess-1", "Read", "2026-02-20T15:00:00.123456Z"),
        ("séance", "outil", "short"),
    ];
    for (session, tool, ts) in cases {
        let fp = generate_fingerprint(session, tool, ts, &payload);
        assert_eq!(fp.len(), 16);
        assert!(fp.chars().all(|c| c.is_ascii_digit() || ('a'..='f').contains(&c)));
        assert_eq!(fp, reference_fingerprint(session, tool, ts, &payload));
    }
}

#[test]
fn fingerprint_ignores_what_follows_the_second() {
    let payload = obj(vec![]);
    let a = generate_fingerprint("s", "t", "2026-02-20T15:00:00.100Z", &payload);
    let b = generate_fingerprint("s", "t", "2026-02-20T15:00:00.900Z", &payload);
    let c = generate_fingerprint("s", "t", "2026-02-20T15:00:01.100Z", &payload);
    assert_eq!(a, b);
    assert_ne!(a, c);
}

#[test]
fn fingerprint_reads_a_timestamp_whole_when_it_cannot_be_cut() {
    let payload = obj(vec![]);
    let ts = "2026-02-20T15:00:0é-and-more";
    assert!(!ts.is_char_boundary(19));
    let fp = generate_fingerprint("s", "t", ts, &payload);
    let mut hasher = DefaultHasher::new();
    "s".hash(&mut hasher);
    "t".hash(&mut hasher);
    ts.hash(&mut hasher);
    payload.to_string().hash(&mut hasher);
    assert_eq!(fp, format!("{:016x}", hasher.finish()));
}

#[test]
fn fingerprint_depends_on_tool_and_payload() {
    let a = generate_fingerprint("s", "Read", "2026-02-20T15:00:00Z", &obj(vec![]));
    let b = generate_fingerprint("s", "Write", "2026-02-20T15:00:00Z", &obj(vec![]));
    let c = generate_fingerprint("s", "Read", "2026-02-20T15:00:00Z", &obj(vec![("k", s("v"))]));
    assert_ne!(a, b);
    assert_ne!(a, c);
}

#[test]
fn event_fingerprint_uses_session_tool_time_and_payload() {
    let raw = obj(vec![
        ("hook_type", s("PreToolUse")),
        ("session_id", s("sess-1")),
        ("tool_name", s("Read")),
        ("tool_input", obj(vec![("file_path", s("/some/file"))])),
        ("_meta", meta()),
    ]);
    let event = norm(&raw).unwrap();
    assert_eq!(
        event_fingerprint(&event),
        reference_fingerprint("sess-1", "Read", "2026-02-20T15:00:00Z", &event.payload)
    );
    let first = normalize(&raw, "evt-a".to_string(), "2026-03-01T00:00:00Z").unwrap();
    let second = normalize(&raw, "evt-b".to_string(), "2026-03-02T00:00:00Z").unwrap();
    assert_ne!(first.id, second.id);
    assert_eq!(event_fingerprint(&first), event_fingerprint(&second));
    let stop = obj(vec![("hook_type", s("Stop"))]);
    let event = norm(&stop).unwrap();
    assert_eq!(
        event_fingerprint(&event),
        reference_fingerprint("", "", "2026-03-01T00:00:00+00:00", &event.payload)
    );
}

#[test]
fn fingerprint_does_not_depend_on_the_order_of_members() {
    let one = obj(vec![
        ("tool_name", s("Read")),
        ("alpha", Value::from(1)),
        ("nested", obj(vec![("x", s("1")), ("y", s("2"))])),
    ]);
    let other = obj(vec![
        ("nested", obj(vec![("y", s("2")), ("x", s("1"))])),
        ("alpha", Value::from(1)),
        ("tool_name", s("Read")),
    ]);
    assert_eq!(one.to_string(), other.to_string());
    assert_eq!(
        one.to_string(),
        "{\"alpha\":1,\"nested\":{\"x\":\"1\",\"y\":\"2\"},\"tool_name\":\"Read\"}"
    );
    assert_eq!(
        generate_fingerprint("s", "Read", "2026-02-20T15:00:00Z", &one),
        generate_fingerprint("s", "Read", "2026-02-20T15:00:00Z", &other)
    );
    let first = obj(vec![
        ("hook_type", s("PreToolUse")),
        ("tool_name", s("Read")),
        ("tool_input", obj(vec![("a", s("1")), ("b", s("2"))])),
        ("_meta", meta()),
    ]);
    let second = obj(vec![
        ("_meta", meta()),
        ("tool_input", obj(vec![("b", s("2")), ("a", s("1"))])),
        ("tool_name", s("Read")),
        ("hook_type", s("PreToolUse")),
    ]);
    assert_eq!(
        event_fingerprint(&norm(&first).unwrap()),
        event_fingerprint(&norm(&second).unwrap())
    );
}
