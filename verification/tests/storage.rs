use agent_mascot::error::AppError;
use agent_mascot::models::agent::{
    AgentRole, AgentState, AgentStatus, EmploymentType, MascotAgent,
};
use agent_mascot::models::event::{EventSource, EventType, NormalizedEvent, Severity};
use agent_mascot::storage::agents_repo::AgentsRepo;
use agent_mascot::storage::db::Database;
use agent_mascot::storage::events_repo::{extract_summary_from_type, stored_form, EventsRepo};
use agent_mascot::storage::settings_repo::SettingsRepo;
use agent_mascot::storage::state_repo::StateRepo;
use serde_json::Value;

fn make_test_agent(id: &str) -> MascotAgent {
    MascotAgent {
        agent_id: id.to_string(),
        display_name: id.to_string(),
        role: AgentRole::Worker,
        employment_type: EmploymentType::Contractor,
        workspace_id: "test-project".to_string(),
        status: AgentStatus::Idle,
        thinking_text: None,
        current_task: None,
        appearance: "{\"body_index\":0,\"hair_index\":1}".to_string(),
        last_active_ts: "2026-02-20T15:00:00Z".to_string(),
    }
}

fn make_test_state(id: &str) -> AgentState {
    AgentState {
        agent_id: id.to_string(),
        status: AgentStatus::Idle,
        prev_status: None,
        thinking_text: None,
        current_task: None,
        workspace_id: "test-project".to_string(),
        since: "2026-02-20T15:00:00Z".to_string(),
        last_event_ts: "2026-02-20T15:00:00Z".to_string(),
        session_id: None,
        peer_agent_id: None,
        home_x_bits: 0.5f64.to_bits(),
    }
}

fn make_test_event(id: &str, fingerprint_suffix: &str) -> (NormalizedEvent, String) {
    let mut raw = serde_json::Map::new();
    raw.insert("type".to_string(), Value::String("test".to_string()));
    let event = NormalizedEvent {
        id: id.to_string(),
        version: "1.0".to_string(),
        ts: "2026-02-20T15:00:00Z".to_string(),
        event_type: EventType::AgentStarted,
        source: EventSource::Hook,
        workspace_id: "test-project".to_string(),
        terminal_session_id: "term-1".to_string(),
        run_id: None,
        session_id: Some("session-1".to_string()),
        agent_id: "agent-01".to_string(),
        target_agent_id: None,
        task_id: None,
        severity: Severity::Info,
        payload: Value::Object(serde_json::Map::new()),
        thinking_text: None,
        raw: Value::Object(raw),
    };
    let fingerprint = format!("fp-{}", fingerprint_suffix);
    (event, fingerprint)
}

fn event_of(id: &str, agent: &str, event_type: EventType, ts: &str, tool: Option<&str>) -> NormalizedEvent {
    let (mut event, _) = make_test_event(id, id);
    event.agent_id = agent.to_string();
    event.event_type = event_type;
    event.ts = ts.to_string();
    if let Some(t) = tool {
        let mut m = serde_json::Map::new();
        m.insert("tool_name".to_string(), Value::String(t.to_string()));
        event.payload = Value::Object(m);
    }
    event
}

#[test]
fn test_upsert_and_get_all() {
    let mut repo = AgentsRepo::new();
    repo.upsert(&make_test_agent("agent-01"));
    repo.upsert(&make_test_agent("agent-02"));
    let agents = repo.get_all();
    assert_eq!(agents.len(), 2);
}

#[test]
fn test_init_db_in_memory() {
    let db = Database::new();
    let count = db.agents().get_all().len();
    assert_eq!(count, 0);
}

#[test]
fn test_insert_returns_true() {
    let mut repo = EventsRepo::new();
    let (event, fp) = make_test_event("evt-1", "1");
    let inserted = repo.insert(&event, &fp).expect("insert");
    assert!(inserted);
}

#[test]
fn test_duplicate_fingerprint_returns_false() {
    let mut repo = EventsRepo::new();
    let (event, fp) = make_test_event("evt-1", "dup");
    repo.insert(&event, &fp).expect("first insert");
    let (event2, _) = make_test_event("evt-2", "ignored");
    let inserted = repo.insert(&event2, &fp).expect("second insert same fp");
    assert!(!inserted);
}

#[test]
fn test_get_nonexistent_returns_none() {
    let repo = SettingsRepo::new();
    let result = repo.get("nonexistent");
    assert!(result.is_none());
}

#[test]
fn test_set_and_get() {
    let mut repo = SettingsRepo::new();
    repo.set("lang", "ko");
    let val = repo.get("lang").expect("should exist");
    assert_eq!(val, "ko");
}

#[test]
fn test_set_overwrites() {
    let mut repo = SettingsRepo::new();
    repo.set("lang", "ko");
    repo.set("lang", "en");
    let val = repo.get("lang").expect("should exist");
    assert_eq!(val, "en");
}

#[test]
fn test_delete() {
    let mut repo = SettingsRepo::new();
    repo.set("key", "val");
    let deleted = repo.delete("key");
    assert!(deleted);
    assert!(repo.get("key").is_none());
}

#[test]
fn test_upsert_and_get() {
    let mut db = Database::new();
    db.upsert_agent(&make_test_agent("a1"));
    db.upsert_state(&make_test_state("a1")).expect("upsert");
    let state = db.states().get("a1").expect("should exist");
    assert_eq!(state.status, AgentStatus::Idle);
    assert_eq!(f64::from_bits(state.home_x_bits), 0.5);
}

#[test]
fn test_get_nonexistent() {
    let repo = StateRepo::new();
    let result = repo.get("nonexistent");
    assert!(result.is_none());
}

#[test]
fn delete_of_missing_key_says_so() {
    let mut repo = SettingsRepo::new();
    repo.set("a", "1");
    assert!(!repo.delete("b"));
    assert_eq!(repo.get("a").as_deref(), Some("1"));
    assert!(repo.delete("a"));
    assert!(!repo.delete("a"));
}

#[test]
fn settings_keep_other_keys() {
    let mut repo = SettingsRepo::new();
    repo.set("a", "1");
    repo.set("b", "2");
    repo.set("c", "3");
    repo.set("b", "two");
    assert!(repo.delete("a"));
    assert_eq!(repo.get("a"), None);
    assert_eq!(repo.get("b").as_deref(), Some("two"));
    assert_eq!(repo.get("c").as_deref(), Some("3"));
}

#[test]
fn agent_upsert_keeps_first_seen_and_refreshes_the_rest() {
    let mut repo = AgentsRepo::new();
    repo.upsert(&make_test_agent("agent-01"));
    let mut later = make_test_agent("agent-01");
    later.display_name = "renamed".to_string();
    later.last_active_ts = "2026-02-21T10:00:00Z".to_string();
    later.appearance = "{}".to_string();
    later.role = AgentRole::Manager;
    later.employment_type = EmploymentType::Employee;
    later.workspace_id = "elsewhere".to_string();
    repo.upsert(&later);
    let agents = repo.get_all();
    assert_eq!(agents.len(), 1);
    let agent = repo.get_by_id("agent-01").expect("registered");
    assert_eq!(agent.display_name, "renamed");
    assert_eq!(agent.last_active_ts, "2026-02-21T10:00:00Z");
    assert_eq!(agent.appearance, "{}");
    assert_eq!(agent.role, AgentRole::Worker);
    assert_eq!(agent.employment_type, EmploymentType::Contractor);
    assert_eq!(agent.workspace_id, "test-project");
    assert_eq!(repo.first_seen("agent-01").as_deref(), Some("2026-02-20T15:00:00Z"));
    assert_eq!(repo.first_seen("nobody"), None);
}

#[test]
fn agents_are_described_as_offline_and_in_order() {
    let mut repo = AgentsRepo::new();
    repo.upsert(&make_test_agent("b"));
    repo.upsert(&make_test_agent("a"));
    repo.upsert(&make_test_agent("b"));
    let agents = repo.get_all();
    assert_eq!(agents.len(), 2);
    assert_eq!(agents[0].agent_id, "b");
    assert_eq!(agents[1].agent_id, "a");
    assert_eq!(agents[0].status, AgentStatus::Offline);
    assert!(repo.get_by_id("c").is_none());
}

#[test]
fn state_upsert_keeps_workspace_and_home() {
    let mut repo = StateRepo::new();
    repo.upsert(&make_test_state("a1"));
    let mut next = make_test_state("a1");
    next.status = AgentStatus::Working;
    next.prev_status = Some(AgentStatus::Idle);
    next.thinking_text = Some("t".to_string());
    next.current_task = Some("Read".to_string());
    next.workspace_id = "other".to_string();
    next.since = "2026-02-20T16:00:00Z".to_string();
    next.last_event_ts = "2026-02-20T16:00:01Z".to_string();
    next.session_id = Some("s".to_string());
    next.peer_agent_id = Some("p".to_string());
    next.home_x_bits = 0.9f64.to_bits();
    repo.upsert(&next);
    let all = repo.get_all();
    assert_eq!(all.len(), 1);
    let got = repo.get("a1").expect("exists");
    assert_eq!(got.status, AgentStatus::Working);
    assert_eq!(got.prev_status, Some(AgentStatus::Idle));
    assert_eq!(got.thinking_text.as_deref(), Some("t"));
    assert_eq!(got.current_task.as_deref(), Some("Read"));
    assert_eq!(got.since, "2026-02-20T16:00:00Z");
    assert_eq!(got.last_event_ts, "2026-02-20T16:00:01Z");
    assert_eq!(got.session_id.as_deref(), Some("s"));
    assert_eq!(got.peer_agent_id.as_deref(), Some("p"));
    assert_eq!(got.workspace_id, "test-project");
    assert_eq!(f64::from_bits(got.home_x_bits), 0.5);
}

#[test]
fn state_of_unregistered_agent_is_refused() {
    let mut db = Database::new();
    match db.upsert_state(&make_test_state("ghost")) {
        Err(AppError::Database(detail)) => assert_eq!(detail, "FOREIGN KEY constraint failed"),
        other => panic!("unexpected: {:?}", other),
    }
    assert!(db.states().get("ghost").is_none());
    assert_eq!(db.states().get_all().len(), 0);
}

#[test]
fn duplicate_leaves_the_first_event_as_it_was() {
    let mut repo = EventsRepo::new();
    let (event, fp) = make_test_event("evt-1", "dup");
    assert_eq!(repo.insert(&event, &fp).ok(), Some(true));
    let (event2, _) = make_test_event("evt-2", "ignored");
    assert_eq!(repo.insert(&event2, &fp).ok(), Some(false));
    assert_eq!(repo.len(), 1);
    assert!(repo.has_id("evt-1"));
    assert!(!repo.has_id("evt-2"));
    let lines = repo.get_recent_by_agent("agent-01", 5);
    assert_eq!(lines.len(), 1);
    assert_eq!(lines[0].ts, "2026-02-20T15:00:00Z");
}

#[test]
fn event_with_a_known_id_is_refused() {
    let mut repo = EventsRepo::new();
    let (event, fp) = make_test_event("evt-1", "1");
    assert_eq!(repo.insert(&event, &fp).ok(), Some(true));
    let (again, _) = make_test_event("evt-1", "x");
    match repo.insert(&again, "fp-2") {
        Err(AppError::Database(detail)) => {
            assert_eq!(detail, "UNIQUE constraint failed: events.id")
        }
        other => panic!("unexpected: {:?}", other),
    }
    assert_eq!(repo.len(), 1);
    assert_eq!(repo.insert(&again, "fp-1").ok(), Some(false));
    let (other, _) = make_test_event("evt-2", "x");
    assert_eq!(repo.insert(&other, "fp-2").ok(), Some(true));
    assert_eq!(repo.len(), 2);
    assert!(repo.has_fingerprint("fp-1"));
    assert!(repo.has_fingerprint("fp-2"));
    assert!(!repo.has_fingerprint("fp-3"));
    assert!(repo.has_id("evt-2"));
    assert!(!repo.has_id("evt-3"));
    let row = stored_form(&event, &fp);
    assert_eq!(row.event.id, "evt-1");
    assert_eq!(row.fingerprint, "fp-1");
    assert_eq!(row.event.raw, event.raw);
}

#[test]
fn counts_go_by_agent_and_type() {
    let mut repo = EventsRepo::new();
    let events = [
        event_of("1", "a", EventType::TaskCompleted, "2026-02-20T15:00:01Z", None),
        event_of("2", "a", EventType::ToolStarted, "2026-02-20T15:00:02Z", Some("Read")),
        event_of("3", "b", EventType::TaskCompleted, "2026-02-20T15:00:03Z", None),
        event_of("4", "a", EventType::ToolStarted, "2026-02-20T15:00:04Z", Some("Bash")),
        event_of("5", "a", EventType::TaskCompleted, "2026-02-20T15:00:05Z", None),
        event_of("6", "a", EventType::ToolStarted, "2026-02-20T15:00:06Z", Some("Bash")),
        event_of("7", "a", EventType::ToolFailed, "2026-02-20T15:00:07Z", Some("Bash")),
    ];
    for e in &events {
        assert_eq!(repo.insert(e, &format!("fp-{}", e.id)).ok(), Some(true));
    }
    assert_eq!(repo.count_completed_tasks("a"), 2);
    assert_eq!(repo.count_tools_used("a"), 3);
    assert_eq!(repo.count_completed_tasks("b"), 1);
    assert_eq!(repo.count_tools_used("b"), 0);
    assert_eq!(repo.count_completed_tasks("c"), 0);
    assert_eq!(repo.count_by_type("a", EventType::ToolFailed), 1);
}

#[test]
fn recent_events_come_latest_first() {
    let mut repo = EventsRepo::new();
    let events = [
        event_of("1", "a", EventType::ToolStarted, "2026-02-20T15:00:02Z", Some("Read")),
        event_of("2", "a", EventType::TaskCompleted, "2026-02-20T15:00:05Z", None),
        event_of("3", "b", EventType::TaskCompleted, "2026-02-20T15:00:09Z", None),
        event_of("4", "a", EventType::AgentStarted, "2026-02-20T15:00:01Z", None),
        event_of("5", "a", EventType::ToolFailed, "2026-02-20T15:00:05Z", Some("Bash")),
        event_of("6", "a", EventType::Notification, "2026-02-20T15:00:03Z", None),
    ];
    for e in &events {
        assert_eq!(repo.insert(e, &format!("fp-{}", e.id)).ok(), Some(true));
    }
    let all = repo.get_recent_by_agent("a", 10);
    let seen: Vec<(&str, &str, &str)> = all
        .iter()
        .map(|e| (e.event_type.as_str(), e.summary.as_str(), e.ts.as_str()))
        .collect();
    assert_eq!(
        seen,
        vec![
            ("tool_failed", "도구 실패: Bash", "2026-02-20T15:00:05Z"),
            ("task_completed", "작업 완료", "2026-02-20T15:00:05Z"),
            ("notification", "notification", "2026-02-20T15:00:03Z"),
            ("tool_started", "도구 실행: Read", "2026-02-20T15:00:02Z"),
            ("agent_started", "에이전트 시작", "2026-02-20T15:00:01Z"),
        ]
    );
    let two = repo.get_recent_by_agent("a", 2);
    assert_eq!(two.len(), 2);
    assert_eq!(two[0].summary, "도구 실패: Bash");
    assert_eq!(two[1].summary, "작업 완료");
    assert_eq!(repo.get_recent_by_agent("a", 0).len(), 0);
    assert_eq!(repo.get_recent_by_agent("nobody", 5).len(), 0);
    assert_eq!(repo.get_recent_by_agent("b", 5).len(), 1);
}

#[test]
fn summaries_for_each_kind_of_event() {
    let cases = [
        (EventType::TaskCompleted, None, "작업 완료"),
        (EventType::TaskStarted, None, "작업 시작"),
        (EventType::ToolStarted, Some("Read"), "도구 실행: Read"),
        (EventType::ToolSucceeded, Some("Read"), "도구 성공: Read"),
        (EventType::ToolFailed, None, "도구 실패: "),
        (EventType::AgentStarted, None, "에이전트 시작"),
        (EventType::AgentStopped, None, "에이전트 종료"),
        (EventType::MessageSent, Some("x"), "message_sent"),
        (EventType::Heartbeat, None, "heartbeat"),
    ];
    for (event_type, tool, expected) in cases {
        let e = event_of("1", "a", event_type, "2026-02-20T15:00:02Z", tool);
        assert_eq!(extract_summary_from_type(&e), expected);
    }
}

#[test]
fn database_settings_round_trip() {
    let mut db = Database::new();
    db.set_setting("lang", "ko");
    db.set_setting("autostart", "true");
    db.set_setting("lang", "en");
    assert_eq!(db.settings().get("lang").as_deref(), Some("en"));
    assert!(db.delete_setting("autostart"));
    assert!(!db.delete_setting("autostart"));
    assert_eq!(db.settings().get("autostart"), None);
}
