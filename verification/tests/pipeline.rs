use agent_mascot::commands::agents::{
    get_agent_resume, get_all_agents, notify_animation_done, notify_chat_done,
    notify_movement_done, process_synthetic_event,
};
use agent_mascot::config::{StateMachineConfig, TimerTransitionsConfig};
use agent_mascot::http::ingest::{
    ensure_agent_registered, ingest_event, ingest_handler, IngestResponse,
};
use agent_mascot::models::agent::{
    AgentRole, AgentState, AgentStatus, EmploymentType, MascotAgent,
};
use agent_mascot::models::event::EventType;
use agent_mascot::models::notification::Notification;
use agent_mascot::services::heartbeat::{
    elapsed_between, parse_elapsed_secs, run_heartbeat, timer_transition,
};
use agent_mascot::services::normalizer::{agent_id_of_payload, event_fingerprint, normalize};
use agent_mascot::storage::db::Database;
use serde_json::Value;

fn config() -> StateMachineConfig {
    StateMachineConfig {
        fatal_keywords: vec!["permission denied".into(), "not found".into()],
        retryable_keywords: vec!["timeout".into()],
        fatal_consecutive_failures: 3,
        timer_transitions: timers(),
    }
}

fn timers() -> TimerTransitionsConfig {
    TimerTransitionsConfig {
        idle_to_resting_secs: 120,
        completed_to_disappear_secs: 60,
        chat_timeout_secs: 5,
    }
}

fn s(text: &str) -> Value {
    Value::String(text.to_string())
}

fn obj(members: Vec<(&str, Value)>) -> Value {
    let mut m = serde_json::Map::new();
    for (k, v) in members {
        m.insert(k.to_string(), v);
    }
    Value::Object(m)
}

fn payload(hook_type: &str, at: &str, more: Vec<(&str, Value)>) -> Value {
    let mut members = vec![
        ("hook_type", s(hook_type)),
        ("session_id", s("sess-1")),
        ("team_name", s("proj")),
        ("agent_name", s("w1")),
        ("_meta", obj(vec![("workspace_id", s("proj")), ("collected_at", s(at))])),
    ];
    members.extend(more);
    obj(members)
}

fn submit(db: &mut Database, raw: &Value, id: &str) -> agent_mascot::http::ingest::IngestOutcome {
    ingest_handler(db, &config(), raw, id.to_string(), "2026-02-20T14:00:00Z", "{\"look\":1}", 0)
}

fn registered(db: &mut Database, id: &str, status: AgentStatus, since: &str) {
    db.upsert_agent(&MascotAgent {
        agent_id: id.to_string(),
        display_name: id.to_string(),
        role: AgentRole::Worker,
        employment_type: EmploymentType::Contractor,
        workspace_id: "proj".to_string(),
        status: AgentStatus::Offline,
        thinking_text: None,
        current_task: None,
        appearance: "{}".to_string(),
        last_active_ts: since.to_string(),
    });
    db.upsert_state(&AgentState {
        agent_id: id.to_string(),
        status,
        prev_status: None,
        thinking_text: Some("pondering".to_string()),
        current_task: None,
        workspace_id: "proj".to_string(),
        since: since.to_string(),
        last_event_ts: since.to_string(),
        session_id: Some("sess-1".to_string()),
        peer_agent_id: None,
        home_x_bits: 0,
    })
    .expect("agent is registered");
}

#[test]
fn test_parse_elapsed_secs() {
    let now = chrono::Utc::now();
    let since = (now - chrono::Duration::seconds(120)).to_rfc3339();
    let elapsed = parse_elapsed_secs(&since, &now.to_rfc3339()).expect("should parse");
    assert!(elapsed >= 119 && elapsed <= 121, "elapsed={elapsed}");
}

#[test]
fn test_parse_elapsed_secs_invalid() {
    let now = chrono::Utc::now();
    assert!(parse_elapsed_secs("not-a-date", &now.to_rfc3339()).is_none());
}

#[test]
fn test_parse_elapsed_secs_future() {
    let now = chrono::Utc::now();
    let future = (now + chrono::Duration::seconds(60)).to_rfc3339();
    let elapsed = parse_elapsed_secs(&future, &now.to_rfc3339()).expect("should parse");
    assert_eq!(elapsed, 0, "future timestamp should clamp to 0");
}

#[test]
fn elapsed_seconds_exact_values() {
    assert_eq!(parse_elapsed_secs("2026-02-20T15:00:00Z", "2026-02-20T15:02:00Z"), Some(120));
    assert_eq!(
        parse_elapsed_secs("2026-02-20T15:00:00.900Z", "2026-02-20T15:00:02.100Z"),
        Some(1)
    );
    assert_eq!(
        parse_elapsed_secs("2026-02-20T17:00:00+02:00", "2026-02-20T15:00:30Z"),
        Some(30)
    );
    assert_eq!(parse_elapsed_secs("2026-02-20T15:00:01Z", "2026-02-20T15:00:00Z"), Some(0));
    assert_eq!(parse_elapsed_secs("2026-02-20T15:00:00Z", "yesterday"), None);
    assert_eq!(parse_elapsed_secs("", "2026-02-20T15:00:00Z"), None);
    assert_eq!(
        parse_elapsed_secs("2026-02-20T15:00:00.100Z", "2026-02-20T15:00:00.050Z"),
        Some(0)
    );
    assert_eq!(
        parse_elapsed_secs("2026-02-20T15:00:00.999999999Z", "2026-02-20T15:00:01Z"),
        Some(0)
    );
    assert_eq!(
        parse_elapsed_secs("1969-12-31T23:59:59Z", "1970-01-01T00:00:01Z"),
        Some(2)
    );
    assert_eq!(elapsed_between((10, 0), (5, 0)), 0);
    assert_eq!(elapsed_between((5, 0), (5, 0)), 0);
    assert_eq!(elapsed_between((5, 0), (12, 0)), 7);
    assert_eq!(elapsed_between((5, 900_000_000), (7, 100_000_000)), 1);
    assert_eq!(elapsed_between((5, 100_000_000), (7, 900_000_000)), 2);
    assert_eq!(elapsed_between((5, 1), (6, 0)), 0);
    assert_eq!(elapsed_between((5, 1), (5, 0)), 0);
    assert_eq!(elapsed_between((-3, 0), (4, 0)), 7);
    assert_eq!(elapsed_between((i64::MAX, 0), (i64::MIN, 0)), 0);
    assert_eq!(elapsed_between((i64::MIN, 0), (i64::MAX, 0)), u64::MAX);
    assert_eq!(elapsed_between((i64::MIN, 0), (i64::MAX, u32::MAX)), u64::MAX);
    assert_eq!(elapsed_between((0, 0), (i64::MAX, 0)), i64::MAX as u64);
}

#[test]
fn timers_wait_for_their_threshold() {
    let t = timers();
    assert_eq!(timer_transition(AgentStatus::Idle, 119, &t), None);
    assert_eq!(timer_transition(AgentStatus::Idle, 120, &t), Some(AgentStatus::Resting));
    assert_eq!(timer_transition(AgentStatus::Completed, 59, &t), None);
    assert_eq!(
        timer_transition(AgentStatus::Completed, 60, &t),
        Some(AgentStatus::Disappearing)
    );
    assert_eq!(timer_transition(AgentStatus::Chatting, 4, &t), None);
    assert_eq!(timer_transition(AgentStatus::Chatting, 5, &t), Some(AgentStatus::Returning));
    assert_eq!(timer_transition(AgentStatus::Working, u64::MAX, &t), None);
    assert_eq!(timer_transition(AgentStatus::Resting, u64::MAX, &t), None);
    assert_eq!(timer_transition(AgentStatus::Offline, u64::MAX, &t), None);
}

#[test]
fn unseen_agent_appears() {
    let mut db = Database::new();
    let raw = obj(vec![
        ("hook_type", s("SubagentStart")),
        ("team_name", s("proj")),
        ("agent_name", s("w1")),
    ]);
    assert_eq!(agent_id_of_payload(&raw), "proj/w1");
    let outcome = submit(&mut db, &raw, "evt-1");
    assert!(matches!(outcome.response, IngestResponse::Accepted));
    assert_eq!(outcome.response.status_code(), 200);
    assert_eq!(outcome.response.body(), "ok");
    let agent = db.agents().get_by_id("proj/w1").expect("record created");
    assert_eq!(agent.display_name, "w1");
    assert_eq!(agent.role, AgentRole::Worker);
    assert_eq!(agent.employment_type, EmploymentType::Contractor);
    assert_eq!(agent.appearance, "{\"look\":1}");
    let state = db.states().get("proj/w1").expect("state created");
    assert_eq!(state.status, AgentStatus::Appearing);
    assert_eq!(state.since, "2026-02-20T14:00:00Z");
    assert_eq!(state.last_event_ts, "2026-02-20T14:00:00Z");
    assert_eq!(outcome.notifications.len(), 1);
    assert_eq!(outcome.notifications[0].channel(), "mascot://agent-appeared");
    match &outcome.notifications[0] {
        Notification::AgentAppeared {
            agent_id,
            display_name,
            role,
            employment_type,
            workspace_id,
            status,
            appearance,
            ts,
        } => {
            assert_eq!(agent_id, "proj/w1");
            assert_eq!(display_name, "w1");
            assert_eq!(*role, AgentRole::Worker);
            assert_eq!(*employment_type, EmploymentType::Contractor);
            assert_eq!(workspace_id, "unknown");
            assert_eq!(*status, AgentStatus::Appearing);
            assert_eq!(appearance, "{\"look\":1}");
            assert_eq!(ts, "2026-02-20T14:00:00Z");
        }
        other => panic!("unexpected: {:?}", other),
    }
    let stored = outcome.stored.expect("the event was added to the log");
    assert_eq!(stored.event.id, "evt-1");
    assert_eq!(stored.event.agent_id, "proj/w1");
    assert!(db.events().has_id("evt-1"));
    assert!(db.events().has_fingerprint(&stored.fingerprint));
    assert_eq!(db.events().len(), 1);
}

#[test]
fn appear_done_makes_idle() {
    let mut db = Database::new();
    registered(&mut db, "proj/w1", AgentStatus::Appearing, "2026-02-20T15:00:00Z");
    let out = notify_animation_done(
        &mut db,
        &config(),
        "proj/w1",
        "appear",
        "syn-1".to_string(),
        "2026-02-20T15:00:03Z",
    );
    let state = db.states().get("proj/w1").unwrap();
    assert_eq!(state.status, AgentStatus::Idle);
    assert_eq!(state.since, "2026-02-20T15:00:03Z");
    assert_eq!(state.last_event_ts, "2026-02-20T15:00:03Z");
    assert_eq!(out.len(), 1);
    match &out[0] {
        Notification::AgentStatusUpdate {
            agent_id,
            status,
            prev_status,
            thinking_text,
            workspace_id,
            chat_message,
            ts,
            ..
        } => {
            assert_eq!(agent_id, "proj/w1");
            assert_eq!(*status, AgentStatus::Idle);
            assert_eq!(*prev_status, AgentStatus::Appearing);
            assert_eq!(thinking_text.as_deref(), Some("pondering"));
            assert_eq!(workspace_id, "proj");
            assert_eq!(*chat_message, None);
            assert_eq!(ts, "2026-02-20T15:00:03Z");
        }
        other => panic!("unexpected: {:?}", other),
    }
    assert_eq!(db.events().len(), 0);
}

#[test]
fn idle_agent_rests_at_heartbeat() {
    let mut db = Database::new();
    registered(&mut db, "a", AgentStatus::Idle, "2026-02-20T15:00:00Z");
    registered(&mut db, "b", AgentStatus::Idle, "2026-02-20T15:01:30Z");
    registered(&mut db, "c", AgentStatus::Working, "2026-02-20T10:00:00Z");
    registered(&mut db, "d", AgentStatus::Completed, "not a time");
    registered(&mut db, "e", AgentStatus::Chatting, "2026-02-20T15:01:55Z");
    registered(&mut db, "f", AgentStatus::Completed, "2026-02-20T15:01:00Z");
    registered(&mut db, "g", AgentStatus::Chatting, "2026-02-20T15:03:00Z");
    let now = "2026-02-20T15:02:00Z";
    let out = run_heartbeat(&mut db, &timers(), now);
    let moved: Vec<(String, AgentStatus, AgentStatus)> = out
        .iter()
        .map(|n| match n {
            Notification::AgentStatusUpdate { agent_id, status, prev_status, ts, chat_message, .. } => {
                assert_eq!(ts, now);
                assert_eq!(*chat_message, None);
                (agent_id.clone(), *prev_status, *status)
            }
            other => panic!("unexpected: {:?}", other),
        })
        .collect();
    assert_eq!(
        moved,
        vec![
            ("a".to_string(), AgentStatus::Idle, AgentStatus::Resting),
            ("e".to_string(), AgentStatus::Chatting, AgentStatus::Returning),
            ("f".to_string(), AgentStatus::Completed, AgentStatus::Disappearing),
        ]
    );
    let a = db.states().get("a").unwrap();
    assert_eq!(a.status, AgentStatus::Resting);
    assert_eq!(a.since, now);
    assert_eq!(a.last_event_ts, now);
    assert_eq!(a.thinking_text.as_deref(), Some("pondering"));
    let b = db.states().get("b").unwrap();
    assert_eq!(b.status, AgentStatus::Idle);
    assert_eq!(b.since, "2026-02-20T15:01:30Z");
    assert_eq!(db.states().get("c").unwrap().status, AgentStatus::Working);
    assert_eq!(db.states().get("d").unwrap().status, AgentStatus::Completed);
    assert_eq!(db.states().get("g").unwrap().status, AgentStatus::Chatting);
    let again = run_heartbeat(&mut db, &timers(), now);
    assert_eq!(again.len(), 0);
}

#[test]
fn heartbeat_with_unreadable_now_moves_nobody() {
    let mut db = Database::new();
    registered(&mut db, "a", AgentStatus::Idle, "2026-02-20T15:00:00Z");
    let out = run_heartbeat(&mut db, &timers(), "now");
    assert_eq!(out.len(), 0);
    assert_eq!(db.states().get("a").unwrap().status, AgentStatus::Idle);
}

#[test]
fn same_event_twice_is_a_duplicate() {
    let mut db = Database::new();
    let raw = payload("SubagentStart", "2026-02-20T15:00:00Z", vec![]);
    let first_id = "evt-1".to_string();
    let second_id = "evt-2".to_string();
    let first = submit(&mut db, &raw, &first_id);
    assert!(matches!(first.response, IngestResponse::Accepted));
    assert_eq!(first.notifications.len(), 1);
    assert!(matches!(first.notifications[0], Notification::AgentAppeared { .. }));
    let stored = first.stored.expect("the event was added to the log");
    let state_before = db.states().get("proj/w1").unwrap();
    let second = submit(&mut db, &raw, &second_id);
    assert!(matches!(second.response, IngestResponse::Duplicate));
    assert_eq!(second.response.status_code(), 200);
    assert_eq!(second.response.body(), "duplicate, skipped");
    assert_eq!(second.notifications.len(), 0);
    assert!(second.stored.is_none());
    assert_eq!(db.events().len(), 1);
    assert_eq!(stored.event.id, first_id);
    assert!(db.events().has_id(&first_id));
    assert!(!db.events().has_id(&second_id));
    assert!(db.events().has_fingerprint(&stored.fingerprint));
    let state_after = db.states().get("proj/w1").unwrap();
    assert_eq!(state_after.status, state_before.status);
    assert_eq!(state_after.since, state_before.since);
    assert_eq!(state_after.last_event_ts, state_before.last_event_ts);
    assert_eq!(db.agents().get_all().len(), 1);
    assert_eq!(db.states().get_all().len(), 1);
}

#[test]
fn redelivery_within_the_second_is_a_duplicate_without_collected_at() {
    let mut db = Database::new();
    let raw = obj(vec![("hook_type", s("SubagentStart")), ("agent_name", s("solo"))]);
    let first = ingest_handler(
        &mut db,
        &config(),
        &raw,
        "evt-1".to_string(),
        "2026-02-20T14:00:00.100Z",
        "{}",
        0,
    );
    assert!(matches!(first.response, IngestResponse::Accepted));
    let second = ingest_handler(
        &mut db,
        &config(),
        &raw,
        "evt-2".to_string(),
        "2026-02-20T14:00:00.900Z",
        "{}",
        0,
    );
    assert!(matches!(second.response, IngestResponse::Duplicate));
    let third = ingest_handler(
        &mut db,
        &config(),
        &raw,
        "evt-3".to_string(),
        "2026-02-20T14:00:01.100Z",
        "{}",
        0,
    );
    assert!(matches!(third.response, IngestResponse::Accepted));
    assert_eq!(db.events().len(), 2);
}

#[test]
fn payload_without_hook_type_is_rejected_and_nothing_stored() {
    let mut db = Database::new();
    let raw = obj(vec![("team_name", s("proj"))]);
    let outcome = submit(&mut db, &raw, "evt-1");
    match &outcome.response {
        IngestResponse::Rejected(text) => assert_eq!(
            text,
            "normalization failed: normalization failed: missing hook_type field"
        ),
        other => panic!("unexpected: {:?}", other),
    }
    assert_eq!(outcome.response.status_code(), 400);
    assert_eq!(outcome.notifications.len(), 0);
    assert_eq!(db.events().len(), 0);
    assert_eq!(db.agents().get_all().len(), 0);
    let failed = IngestResponse::Failed("storage error: disk full".to_string());
    assert_eq!(failed.status_code(), 500);
    assert_eq!(failed.body(), "storage error: disk full");
}

#[test]
fn a_working_day() {
    let mut db = Database::new();
    let cfg = config();
    let mut n = 0;
    let mut send = |db: &mut Database, raw: Value| {
        n += 1;
        ingest_handler(db, &cfg, &raw, format!("evt-{n}"), "2026-02-20T14:00:00Z", "{}", 0)
    };
    send(&mut db, payload("SubagentStart", "2026-02-20T15:00:00Z", vec![]));
    notify_animation_done(&mut db, &cfg, "proj/w1", "appear", "syn-1".into(), "2026-02-20T15:00:01Z");
    let out = send(
        &mut db,
        payload(
            "PreToolUse",
            "2026-02-20T15:00:02Z",
            vec![("tool_name", s("Read")), ("thinking", s("let me look"))],
        ),
    );
    assert_eq!(out.notifications.len(), 1);
    match &out.notifications[0] {
        Notification::AgentStatusUpdate { status, prev_status, current_task, thinking_text, .. } => {
            assert_eq!(*status, AgentStatus::Working);
            assert_eq!(*prev_status, AgentStatus::Idle);
            assert_eq!(current_task.as_deref(), Some("Read"));
            assert_eq!(thinking_text.as_deref(), Some("let me look"));
        }
        other => panic!("unexpected: {:?}", other),
    }
    let out = send(
        &mut db,
        payload(
            "PostToolUse",
            "2026-02-20T15:00:03Z",
            vec![("tool_name", s("Read")), ("error", s("file not found"))],
        ),
    );
    assert_eq!(out.notifications.len(), 1);
    assert_eq!(db.states().get("proj/w1").unwrap().status, AgentStatus::Failed);
    let out = send(
        &mut db,
        payload(
            "PreToolUse",
            "2026-02-20T15:00:04Z",
            vec![
                ("tool_name", s("TaskUpdate")),
                ("tool_input", obj(vec![("taskId", s("1")), ("status", s("in_progress"))])),
            ],
        ),
    );
    assert_eq!(out.notifications.len(), 1);
    assert_eq!(db.states().get("proj/w1").unwrap().status, AgentStatus::Working);
    let out = send(
        &mut db,
        payload(
            "PostToolUse",
            "2026-02-20T15:00:05Z",
            vec![("tool_name", s("Bash")), ("error", s("timeout"))],
        ),
    );
    assert_eq!(out.notifications.len(), 1);
    assert_eq!(db.states().get("proj/w1").unwrap().status, AgentStatus::PendingInput);
    let out = send(&mut db, payload("Notification", "2026-02-20T15:00:06Z", vec![("message", s("hi"))]));
    assert_eq!(out.notifications.len(), 0);
    assert!(matches!(out.response, IngestResponse::Accepted));
    let state = db.states().get("proj/w1").unwrap();
    assert_eq!(state.status, AgentStatus::PendingInput);
    assert_eq!(state.since, "2026-02-20T15:00:05Z");
    assert_eq!(state.last_event_ts, "2026-02-20T15:00:06Z");
    let out = send(&mut db, payload("Stop", "2026-02-20T15:00:07Z", vec![]));
    assert_eq!(out.notifications.len(), 1);
    assert_eq!(db.states().get("proj/w1").unwrap().status, AgentStatus::Disappearing);
    let out = notify_animation_done(
        &mut db,
        &cfg,
        "proj/w1",
        "disappear",
        "syn-2".into(),
        "2026-02-20T15:00:08Z",
    );
    assert_eq!(out.len(), 1);
    match &out[0] {
        Notification::AgentDeparted { agent_id, ts } => {
            assert_eq!(agent_id, "proj/w1");
            assert_eq!(ts, "2026-02-20T15:00:08Z");
        }
        other => panic!("unexpected: {:?}", other),
    }
    assert_eq!(out[0].channel(), "mascot://agent-departed");
    assert_eq!(db.states().get("proj/w1").unwrap().status, AgentStatus::Offline);
    let out = send(&mut db, payload("SubagentStart", "2026-02-20T15:00:09Z", vec![]));
    assert_eq!(out.notifications.len(), 1);
    assert!(matches!(out.notifications[0], Notification::AgentAppeared { .. }));
    assert_eq!(db.events().len(), 8);
    let agent = db.agents().get_by_id("proj/w1").unwrap();
    assert_eq!(agent.last_active_ts, "2026-02-20T15:00:09Z");
    assert_eq!(db.agents().first_seen("proj/w1").as_deref(), Some("2026-02-20T15:00:00Z"));
    let resume = get_agent_resume(&db, "proj/w1", 3).expect("registered");
    assert_eq!(resume.agent.status, AgentStatus::Appearing);
    assert_eq!(resume.recent_events.len(), 3);
    assert_eq!(resume.recent_events[0].ts, "2026-02-20T15:00:09Z");
    assert_eq!(resume.recent_events[0].event_type, "agent_started");
    assert_eq!(resume.recent_events[1].event_type, "agent_stopped");
    assert_eq!(resume.total_tasks_completed, 0);
    assert_eq!(resume.total_tools_used, 1);
    assert_eq!(resume.first_seen_ts, "2026-02-20T15:00:00Z");
    assert_eq!(resume.agent.last_active_ts, "2026-02-20T15:00:09Z");
    assert!(get_agent_resume(&db, "nobody", 3).is_none());
}

#[test]
fn chat_there_and_back() {
    let mut db = Database::new();
    let cfg = config();
    registered(&mut db, "a", AgentStatus::Working, "2026-02-20T15:00:00Z");
    let out = process_synthetic_event(
        &mut db,
        &cfg,
        "a",
        EventType::MessageSent,
        "syn-1".into(),
        "2026-02-20T15:00:01Z",
    );
    assert_eq!(out.len(), 1);
    let state = db.states().get("a").unwrap();
    assert_eq!(state.status, AgentStatus::Walking);
    assert_eq!(state.prev_status, Some(AgentStatus::Working));
    let out = notify_movement_done(&mut db, &cfg, "a", "arrive_at_peer", "syn-2".into(), "2026-02-20T15:00:02Z");
    assert_eq!(out.len(), 1);
    assert_eq!(db.states().get("a").unwrap().status, AgentStatus::Chatting);
    let out = notify_chat_done(&mut db, &cfg, "a", "syn-3".into(), "2026-02-20T15:00:03Z");
    assert_eq!(out.len(), 1);
    assert_eq!(db.states().get("a").unwrap().status, AgentStatus::Returning);
    let out = notify_movement_done(&mut db, &cfg, "a", "arrive_at_home", "syn-4".into(), "2026-02-20T15:00:04Z");
    assert_eq!(out.len(), 1);
    let state = db.states().get("a").unwrap();
    assert_eq!(state.status, AgentStatus::Working);
    assert_eq!(state.prev_status, None);
    assert_eq!(state.since, "2026-02-20T15:00:04Z");
}

#[test]
fn reports_that_concern_nobody_are_dropped() {
    let mut db = Database::new();
    let cfg = config();
    registered(&mut db, "a", AgentStatus::Startled, "2026-02-20T15:00:00Z");
    assert_eq!(
        notify_animation_done(&mut db, &cfg, "a", "wave", "s1".into(), "2026-02-20T15:00:01Z").len(),
        0
    );
    assert_eq!(
        notify_movement_done(&mut db, &cfg, "a", "moonwalk", "s2".into(), "2026-02-20T15:00:01Z").len(),
        0
    );
    assert_eq!(
        notify_animation_done(&mut db, &cfg, "ghost", "appear", "s3".into(), "2026-02-20T15:00:01Z")
            .len(),
        0
    );
    let state = db.states().get("a").unwrap();
    assert_eq!(state.status, AgentStatus::Startled);
    assert_eq!(state.last_event_ts, "2026-02-20T15:00:00Z");
    assert!(db.states().get("ghost").is_none());
    let out = notify_animation_done(&mut db, &cfg, "a", "appear", "s4".into(), "2026-02-20T15:00:02Z");
    assert_eq!(out.len(), 0);
    let state = db.states().get("a").unwrap();
    assert_eq!(state.status, AgentStatus::Startled);
    assert_eq!(state.last_event_ts, "2026-02-20T15:00:02Z");
    let out = notify_animation_done(&mut db, &cfg, "a", "startled", "s5".into(), "2026-02-20T15:00:03Z");
    assert_eq!(out.len(), 1);
    assert_eq!(db.states().get("a").unwrap().status, AgentStatus::Idle);
}

#[test]
fn registration_is_new_only_once() {
    let mut db = Database::new();
    let raw = payload("Notification", "2026-02-20T15:00:00Z", vec![("message", s("hello"))]);
    let event = normalize(&raw, "evt-1".to_string(), "2026-02-20T14:00:00Z").unwrap();
    assert!(ensure_agent_registered(&mut db, &event, "{}"));
    let state = db.states().get("proj/w1").expect("first state");
    assert_eq!(state.status, AgentStatus::Offline);
    assert_eq!(state.workspace_id, "proj");
    assert_eq!(state.session_id.as_deref(), Some("sess-1"));
    assert_eq!(state.since, "2026-02-20T15:00:00Z");
    assert!(!ensure_agent_registered(&mut db, &event, "{\"v\":2}"));
    assert_eq!(db.agents().get_all().len(), 1);
    assert_eq!(db.agents().get_by_id("proj/w1").unwrap().appearance, "{\"v\":2}");
}

#[test]
fn new_agent_without_transition_publishes_nothing() {
    let mut db = Database::new();
    let raw = payload("Notification", "2026-02-20T15:00:00Z", vec![("message", s("hello"))]);
    let event = normalize(&raw, "evt-1".to_string(), "2026-02-20T14:00:00Z").unwrap();
    let fp = event_fingerprint(&event);
    let outcome = ingest_event(&mut db, &config(), &event, &fp, "{}", 0);
    assert!(matches!(outcome.response, IngestResponse::Accepted));
    assert_eq!(outcome.notifications.len(), 0);
    assert_eq!(db.states().get("proj/w1").unwrap().status, AgentStatus::Offline);
    assert_eq!(db.states().get("proj/w1").unwrap().last_event_ts, "2026-02-20T15:00:00Z");
}

#[test]
fn failure_streak_is_the_callers() {
    let mut db = Database::new();
    registered(&mut db, "proj/w1", AgentStatus::Working, "2026-02-20T15:00:00Z");
    let raw = payload(
        "PostToolUse",
        "2026-02-20T15:00:05Z",
        vec![("tool_name", s("Bash")), ("error", s("timeout"))],
    );
    let outcome =
        ingest_handler(&mut db, &config(), &raw, "evt-1".into(), "2026-02-20T14:00:00Z", "{}", 3);
    assert_eq!(outcome.notifications.len(), 1);
    assert_eq!(db.states().get("proj/w1").unwrap().status, AgentStatus::Failed);
}

#[test]
fn chat_message_is_passed_on() {
    let mut db = Database::new();
    registered(&mut db, "proj/w1", AgentStatus::Working, "2026-02-20T15:00:00Z");
    let raw = payload("Stop", "2026-02-20T15:00:05Z", vec![]);
    let mut event = normalize(&raw, "evt-1".to_string(), "2026-02-20T14:00:00Z").unwrap();
    event.payload = obj(vec![("message", s("bye"))]);
    let outcome = ingest_event(&mut db, &config(), &event, "fp", "{}", 0);
    match &outcome.notifications[0] {
        Notification::AgentStatusUpdate { chat_message, status, .. } => {
            assert_eq!(chat_message.as_deref(), Some("bye"));
            assert_eq!(*status, AgentStatus::Disappearing);
        }
        other => panic!("unexpected: {:?}", other),
    }
}

#[test]
fn all_agents_come_with_their_state() {
    let mut db = Database::new();
    registered(&mut db, "a", AgentStatus::Working, "2026-02-20T15:00:00Z");
    db.upsert_agent(&MascotAgent {
        agent_id: "b".to_string(),
        display_name: "b".to_string(),
        role: AgentRole::Worker,
        employment_type: EmploymentType::Contractor,
        workspace_id: "proj".to_string(),
        status: AgentStatus::Working,
        thinking_text: Some("x".to_string()),
        current_task: None,
        appearance: "{}".to_string(),
        last_active_ts: "2026-02-20T15:00:00Z".to_string(),
    });
    let agents = get_all_agents(&db);
    assert_eq!(agents.len(), 2);
    assert_eq!(agents[0].agent_id, "a");
    assert_eq!(agents[0].status, AgentStatus::Working);
    assert_eq!(agents[0].thinking_text.as_deref(), Some("pondering"));
    assert_eq!(agents[1].agent_id, "b");
    assert_eq!(agents[1].status, AgentStatus::Offline);
    assert_eq!(agents[1].thinking_text, None);
}

#[test]
fn event_with_a_known_id_is_a_failure_of_the_store() {
    let mut db = Database::new();
    let first = payload("SubagentStart", "2026-02-20T15:00:00Z", vec![]);
    let outcome = submit(&mut db, &first, "evt-same");
    assert!(matches!(outcome.response, IngestResponse::Accepted));
    let state_before = db.states().get("proj/w1").unwrap();
    let other = payload("PreToolUse", "2026-02-20T15:00:05Z", vec![("tool_name", s("Read"))]);
    let outcome = submit(&mut db, &other, "evt-same");
    match &outcome.response {
        IngestResponse::Failed(text) => assert_eq!(
            text,
            "storage error: database error: UNIQUE constraint failed: events.id"
        ),
        other => panic!("unexpected: {:?}", other),
    }
    assert_eq!(outcome.response.status_code(), 500);
    assert_eq!(outcome.notifications.len(), 0);
    assert!(outcome.stored.is_none());
    assert_eq!(db.events().len(), 1);
    let state_after = db.states().get("proj/w1").unwrap();
    assert_eq!(state_after.status, state_before.status);
    assert_eq!(state_after.last_event_ts, state_before.last_event_ts);
    let again = submit(&mut db, &first, "evt-same");
    assert!(matches!(again.response, IngestResponse::Duplicate));
    let outcome = submit(&mut db, &other, "evt-other");
    assert!(matches!(outcome.response, IngestResponse::Accepted));
    assert_eq!(db.events().len(), 2);
}
