//! Canonical events: what every hook payload and every locally generated
//! completion signal is turned into.

use vstd::prelude::*;
use serde_json::Value;
use crate::json::{json_model, value_clone, Json};
use crate::text::{clone_opt, opt_text, str_eq};

verus! {

/// The closed catalog of event types.
#[derive(Debug, Clone, Copy, PartialEq, Eq, Hash, Structural)]
pub enum EventType {
    AgentStarted,
    AgentStopped,
    AgentBlocked,
    AgentUnblocked,
    TaskCreated,
    TaskStarted,
    TaskProgress,
    TaskCompleted,
    TaskFailed,
    ToolStarted,
    ToolSucceeded,
    ToolFailed,
    ThinkingUpdated,
    Heartbeat,
    Notification,
    SchemaError,
    MessageSent,
    MessageReceived,
    AppearDone,
    DisappearDone,
    StartledDone,
    ArriveAtPeer,
    ArriveAtHome,
    MessageDone,
}

/// The tag under which an event type is stored and sent.
pub open spec fn event_type_tag(v: EventType) -> Seq<char> {
    match v {
        EventType::AgentStarted => "agent_started"@,
        EventType::AgentStopped => "agent_stopped"@,
        EventType::AgentBlocked => "agent_blocked"@,
        EventType::AgentUnblocked => "agent_unblocked"@,
        EventType::TaskCreated => "task_created"@,
        EventType::TaskStarted => "task_started"@,
        EventType::TaskProgress => "task_progress"@,
        EventType::TaskCompleted => "task_completed"@,
        EventType::TaskFailed => "task_failed"@,
        EventType::ToolStarted => "tool_started"@,
        EventType::ToolSucceeded => "tool_succeeded"@,
        EventType::ToolFailed => "tool_failed"@,
        EventType::ThinkingUpdated => "thinking_updated"@,
        EventType::Heartbeat => "heartbeat"@,
        EventType::Notification => "notification"@,
        EventType::SchemaError => "schema_error"@,
        EventType::MessageSent => "message_sent"@,
        EventType::MessageReceived => "message_received"@,
        EventType::AppearDone => "appear_done"@,
        EventType::DisappearDone => "disappear_done"@,
        EventType::StartledDone => "startled_done"@,
        EventType::ArriveAtPeer => "arrive_at_peer"@,
        EventType::ArriveAtHome => "arrive_at_home"@,
        EventType::MessageDone => "message_done"@,
    }
}

/// The type that a tag names, if it names one.
pub open spec fn event_type_of_tag(tag: Seq<char>) -> Option<EventType> {
    if tag == "agent_started"@ {
        Some(EventType::AgentStarted)
    } else if tag == "agent_stopped"@ {
        Some(EventType::AgentStopped)
    } else if tag == "agent_blocked"@ {
        Some(EventType::AgentBlocked)
    } else if tag == "agent_unblocked"@ {
        Some(EventType::AgentUnblocked)
    } else if tag == "task_created"@ {
        Some(EventType::TaskCreated)
    } else if tag == "task_started"@ {
        Some(EventType::TaskStarted)
    } else if tag == "task_progress"@ {
        Some(EventType::TaskProgress)
    } else if tag == "task_completed"@ {
        Some(EventType::TaskCompleted)
    } else if tag == "task_failed"@ {
        Some(EventType::TaskFailed)
    } else if tag == "tool_started"@ {
        Some(EventType::ToolStarted)
    } else if tag == "tool_succeeded"@ {
        Some(EventType::ToolSucceeded)
    } else if tag == "tool_failed"@ {
        Some(EventType::ToolFailed)
    } else if tag == "thinking_updated"@ {
        Some(EventType::ThinkingUpdated)
    } else if tag == "heartbeat"@ {
        Some(EventType::Heartbeat)
    } else if tag == "notification"@ {
        Some(EventType::Notification)
    } else if tag == "schema_error"@ {
        Some(EventType::SchemaError)
    } else if tag == "message_sent"@ {
        Some(EventType::MessageSent)
    } else if tag == "message_received"@ {
        Some(EventType::MessageReceived)
    } else if tag == "appear_done"@ {
        Some(EventType::AppearDone)
    } else if tag == "disappear_done"@ {
        Some(EventType::DisappearDone)
    } else if tag == "startled_done"@ {
        Some(EventType::StartledDone)
    } else if tag == "arrive_at_peer"@ {
        Some(EventType::ArriveAtPeer)
    } else if tag == "arrive_at_home"@ {
        Some(EventType::ArriveAtHome)
    } else if tag == "message_done"@ {
        Some(EventType::MessageDone)
    } else {
        None
    }
}

impl EventType {
    /// The tag under which this value is stored and sent.
    pub fn as_tag(&self) -> (r: &'static str)
        ensures
            r@ == event_type_tag(*self),
    {
        match self {
            EventType::AgentStarted => "agent_started",
            EventType::AgentStopped => "agent_stopped",
            EventType::AgentBlocked => "agent_blocked",
            EventType::AgentUnblocked => "agent_unblocked",
            EventType::TaskCreated => "task_created",
            EventType::TaskStarted => "task_started",
            EventType::TaskProgress => "task_progress",
            EventType::TaskCompleted => "task_completed",
            EventType::TaskFailed => "task_failed",
            EventType::ToolStarted => "tool_started",
            EventType::ToolSucceeded => "tool_succeeded",
            EventType::ToolFailed => "tool_failed",
            EventType::ThinkingUpdated => "thinking_updated",
            EventType::Heartbeat => "heartbeat",
            EventType::Notification => "notification",
            EventType::SchemaError => "schema_error",
            EventType::MessageSent => "message_sent",
            EventType::MessageReceived => "message_received",
            EventType::AppearDone => "appear_done",
            EventType::DisappearDone => "disappear_done",
            EventType::StartledDone => "startled_done",
            EventType::ArriveAtPeer => "arrive_at_peer",
            EventType::ArriveAtHome => "arrive_at_home",
            EventType::MessageDone => "message_done",
        }
    }

    /// The value that `tag` names; `None` for any other text.
    pub fn from_tag(tag: &str) -> (r: Option<EventType>)
        ensures
            r == event_type_of_tag(tag@),
    {
        if str_eq(tag, "agent_started") {
            Some(EventType::AgentStarted)
        } else if str_eq(tag, "agent_stopped") {
            Some(EventType::AgentStopped)
        } else if str_eq(tag, "agent_blocked") {
            Some(EventType::AgentBlocked)
        } else if str_eq(tag, "agent_unblocked") {
            Some(EventType::AgentUnblocked)
        } else if str_eq(tag, "task_created") {
            Some(EventType::TaskCreated)
        } else if str_eq(tag, "task_started") {
            Some(EventType::TaskStarted)
        } else if str_eq(tag, "task_progress") {
            Some(EventType::TaskProgress)
        } else if str_eq(tag, "task_completed") {
            Some(EventType::TaskCompleted)
        } else if str_eq(tag, "task_failed") {
            Some(EventType::TaskFailed)
        } else if str_eq(tag, "tool_started") {
            Some(EventType::ToolStarted)
        } else if str_eq(tag, "tool_succeeded") {
            Some(EventType::ToolSucceeded)
        } else if str_eq(tag, "tool_failed") {
            Some(EventType::ToolFailed)
        } else if str_eq(tag, "thinking_updated") {
            Some(EventType::ThinkingUpdated)
        } else if str_eq(tag, "heartbeat") {
            Some(EventType::Heartbeat)
        } else if str_eq(tag, "notification") {
            Some(EventType::Notification)
        } else if str_eq(tag, "schema_error") {
            Some(EventType::SchemaError)
        } else if str_eq(tag, "message_sent") {
            Some(EventType::MessageSent)
        } else if str_eq(tag, "message_received") {
            Some(EventType::MessageReceived)
        } else if str_eq(tag, "appear_done") {
            Some(EventType::AppearDone)
        } else if str_eq(tag, "disappear_done") {
            Some(EventType::DisappearDone)
        } else if str_eq(tag, "startled_done") {
            Some(EventType::StartledDone)
        } else if str_eq(tag, "arrive_at_peer") {
            Some(EventType::ArriveAtPeer)
        } else if str_eq(tag, "arrive_at_home") {
            Some(EventType::ArriveAtHome)
        } else if str_eq(tag, "message_done") {
            Some(EventType::MessageDone)
        } else {
            None
        }
    }
}

/// Every type is recovered from its own tag.
pub proof fn lemma_event_type_tag_round_trip(v: EventType)
    ensures
        event_type_of_tag(event_type_tag(v)) == Some(v),
{
    reveal_strlit("agent_started");
    reveal_strlit("agent_stopped");
    reveal_strlit("agent_blocked");
    reveal_strlit("agent_unblocked");
    reveal_strlit("task_created");
    reveal_strlit("task_started");
    reveal_strlit("task_progress");
    reveal_strlit("task_completed");
    reveal_strlit("task_failed");
    reveal_strlit("tool_started");
    reveal_strlit("tool_succeeded");
    reveal_strlit("tool_failed");
    reveal_strlit("thinking_updated");
    reveal_strlit("heartbeat");
    reveal_strlit("notification");
    reveal_strlit("schema_error");
    reveal_strlit("message_sent");
    reveal_strlit("message_received");
    reveal_strlit("appear_done");
    reveal_strlit("disappear_done");
    reveal_strlit("startled_done");
    reveal_strlit("arrive_at_peer");
    reveal_strlit("arrive_at_home");
    reveal_strlit("message_done");
    assert("agent_started"@.len() == 13);
    assert("agent_stopped"@.len() == 13);
    assert("agent_blocked"@.len() == 13);
    assert("agent_unblocked"@.len() == 15);
    assert("task_created"@.len() == 12);
    assert("task_started"@.len() == 12);
    assert("task_progress"@.len() == 13);
    assert("task_completed"@.len() == 14);
    assert("task_failed"@.len() == 11);
    assert("tool_started"@.len() == 12);
    assert("tool_succeeded"@.len() == 14);
    assert("tool_failed"@.len() == 11);
    assert("thinking_updated"@.len() == 16);
    assert("heartbeat"@.len() == 9);
    assert("notification"@.len() == 12);
    assert("schema_error"@.len() == 12);
    assert("message_sent"@.len() == 12);
    assert("message_received"@.len() == 16);
    assert("appear_done"@.len() == 11);
    assert("disappear_done"@.len() == 14);
    assert("startled_done"@.len() == 13);
    assert("arrive_at_peer"@.len() == 14);
    assert("arrive_at_home"@.len() == 14);
    assert("message_done"@.len() == 12);
    assert("agent_blocked"@[0] == 'a');
    assert("agent_blocked"@[6] == 'b');
    assert("agent_started"@[0] == 'a');
    assert("agent_started"@[6] == 's');
    assert("agent_started"@[8] == 'a');
    assert("agent_stopped"@[0] == 'a');
    assert("agent_stopped"@[6] == 's');
    assert("agent_stopped"@[8] == 'o');
    assert("appear_done"@[0] == 'a');
    assert("arrive_at_home"@[0] == 'a');
    assert("arrive_at_home"@[10] == 'h');
    assert("arrive_at_peer"@[0] == 'a');
    assert("arrive_at_peer"@[10] == 'p');
    assert("disappear_done"@[0] == 'd');
    assert("message_done"@[0] == 'm');
    assert("message_done"@[8] == 'd');
    assert("message_received"@[0] == 'm');
    assert("message_sent"@[0] == 'm');
    assert("message_sent"@[8] == 's');
    assert("notification"@[0] == 'n');
    assert("schema_error"@[0] == 's');
    assert("startled_done"@[0] == 's');
    assert("task_completed"@[0] == 't');
    assert("task_completed"@[1] == 'a');
    assert("task_created"@[0] == 't');
    assert("task_created"@[1] == 'a');
    assert("task_created"@[5] == 'c');
    assert("task_failed"@[0] == 't');
    assert("task_failed"@[1] == 'a');
    assert("task_progress"@[0] == 't');
    assert("task_started"@[0] == 't');
    assert("task_started"@[1] == 'a');
    assert("task_started"@[5] == 's');
    assert("thinking_updated"@[0] == 't');
    assert("tool_failed"@[0] == 't');
    assert("tool_failed"@[1] == 'o');
    assert("tool_started"@[0] == 't');
    assert("tool_started"@[1] == 'o');
    assert("tool_succeeded"@[0] == 't');
    assert("tool_succeeded"@[1] == 'o');
}

/// A text that names a type is the tag of that type.
pub proof fn lemma_event_type_of_tag_is_tag(tag: Seq<char>)
    requires
        event_type_of_tag(tag) is Some,
    ensures
        event_type_tag(event_type_of_tag(tag).unwrap()) == tag,
{
}

/// Where an event came from: a hook, or the display layer reporting that
/// something it showed has ended.
#[derive(Debug, Clone, Copy, PartialEq, Eq, Hash, Structural)]
pub enum EventSource {
    Hook,
    Synthetic,
}

/// The tag under which an event source is stored and sent.
pub open spec fn event_source_tag(v: EventSource) -> Seq<char> {
    match v {
        EventSource::Hook => "hook"@,
        EventSource::Synthetic => "synthetic"@,
    }
}

/// The source that a tag names, if it names one.
pub open spec fn event_source_of_tag(tag: Seq<char>) -> Option<EventSource> {
    if tag == "hook"@ {
        Some(EventSource::Hook)
    } else if tag == "synthetic"@ {
        Some(EventSource::Synthetic)
    } else {
        None
    }
}

impl EventSource {
    /// The tag under which this value is stored and sent.
    pub fn as_tag(&self) -> (r: &'static str)
        ensures
            r@ == event_source_tag(*self),
    {
        match self {
            EventSource::Hook => "hook",
            EventSource::Synthetic => "synthetic",
        }
    }

    /// The value that `tag` names; `None` for any other text.
    pub fn from_tag(tag: &str) -> (r: Option<EventSource>)
        ensures
            r == event_source_of_tag(tag@),
    {
        if str_eq(tag, "hook") {
            Some(EventSource::Hook)
        } else if str_eq(tag, "synthetic") {
            Some(EventSource::Synthetic)
        } else {
            None
        }
    }
}

/// Every source is recovered from its own tag.
pub proof fn lemma_event_source_tag_round_trip(v: EventSource)
    ensures
        event_source_of_tag(event_source_tag(v)) == Some(v),
{
    reveal_strlit("hook");
    reveal_strlit("synthetic");
    assert("hook"@.len() == 4);
    assert("synthetic"@.len() == 9);
}

/// A text that names a source is the tag of that source.
pub proof fn lemma_event_source_of_tag_is_tag(tag: Seq<char>)
    requires
        event_source_of_tag(tag) is Some,
    ensures
        event_source_tag(event_source_of_tag(tag).unwrap()) == tag,
{
}

/// How serious an event is.
#[derive(Debug, Clone, Copy, PartialEq, Eq, Hash, Structural)]
pub enum Severity {
    Debug,
    Info,
    Warn,
    Error,
}

/// The tag under which a severity is stored and sent.
pub open spec fn severity_tag(v: Severity) -> Seq<char> {
    match v {
        Severity::Debug => "debug"@,
        Severity::Info => "info"@,
        Severity::Warn => "warn"@,
        Severity::Error => "error"@,
    }
}

/// The severity that a tag names, if it names one.
pub open spec fn severity_of_tag(tag: Seq<char>) -> Option<Severity> {
    if tag == "debug"@ {
        Some(Severity::Debug)
    } else if tag == "info"@ {
        Some(Severity::Info)
    } else if tag == "warn"@ {
        Some(Severity::Warn)
    } else if tag == "error"@ {
        Some(Severity::Error)
    } else {
        None
    }
}

impl Severity {
    /// The tag under which this value is stored and sent.
    pub fn as_tag(&self) -> (r: &'static str)
        ensures
            r@ == severity_tag(*self),
    {
        match self {
            Severity::Debug => "debug",
            Severity::Info => "info",
            Severity::Warn => "warn",
            Severity::Error => "error",
        }
    }

    /// The value that `tag` names; `None` for any other text.
    pub fn from_tag(tag: &str) -> (r: Option<Severity>)
        ensures
            r == severity_of_tag(tag@),
    {
        if str_eq(tag, "debug") {
            Some(Severity::Debug)
        } else if str_eq(tag, "info") {
            Some(Severity::Info)
        } else if str_eq(tag, "warn") {
            Some(Severity::Warn)
        } else if str_eq(tag, "error") {
            Some(Severity::Error)
        } else {
            None
        }
    }
}

/// Every severity is recovered from its own tag.
pub proof fn lemma_severity_tag_round_trip(v: Severity)
    ensures
        severity_of_tag(severity_tag(v)) == Some(v),
{
    reveal_strlit("debug");
    reveal_strlit("info");
    reveal_strlit("warn");
    reveal_strlit("error");
    assert("debug"@.len() == 5);
    assert("info"@.len() == 4);
    assert("warn"@.len() == 4);
    assert("error"@.len() == 5);
    assert("debug"@[0] == 'd');
    assert("error"@[0] == 'e');
    assert("info"@[0] == 'i');
    assert("warn"@[0] == 'w');
}

/// A text that names a severity is the tag of that severity.
pub proof fn lemma_severity_of_tag_is_tag(tag: Seq<char>)
    requires
        severity_of_tag(tag) is Some,
    ensures
        severity_tag(severity_of_tag(tag).unwrap()) == tag,
{
}

/// A canonical event. Once built it is never changed. Two events with different
/// ids may still be one logical event: that is decided by fingerprint.
#[derive(Debug)]
pub struct NormalizedEvent {
    pub id: String,
    pub version: String,
    pub ts: String,
    pub event_type: EventType,
    pub source: EventSource,
    pub workspace_id: String,
    pub terminal_session_id: String,
    pub run_id: Option<String>,
    pub session_id: Option<String>,
    pub agent_id: String,
    pub target_agent_id: Option<String>,
    pub task_id: Option<String>,
    pub severity: Severity,
    pub payload: Value,
    pub thinking_text: Option<String>,
    pub raw: Value,
}

/// What a [`NormalizedEvent`] holds.
pub struct EventView {
    pub id: Seq<char>,
    pub version: Seq<char>,
    pub ts: Seq<char>,
    pub event_type: EventType,
    pub source: EventSource,
    pub workspace_id: Seq<char>,
    pub terminal_session_id: Seq<char>,
    pub run_id: Option<Seq<char>>,
    pub session_id: Option<Seq<char>>,
    pub agent_id: Seq<char>,
    pub target_agent_id: Option<Seq<char>>,
    pub task_id: Option<Seq<char>>,
    pub severity: Severity,
    pub payload: Json,
    pub thinking_text: Option<Seq<char>>,
    pub raw: Json,
}

impl View for NormalizedEvent {
    type V = EventView;

    open spec fn view(&self) -> EventView {
        EventView {
            id: self.id@,
            version: self.version@,
            ts: self.ts@,
            event_type: self.event_type,
            source: self.source,
            workspace_id: self.workspace_id@,
            terminal_session_id: self.terminal_session_id@,
            run_id: opt_text(self.run_id),
            session_id: opt_text(self.session_id),
            agent_id: self.agent_id@,
            target_agent_id: opt_text(self.target_agent_id),
            task_id: opt_text(self.task_id),
            severity: self.severity,
            payload: json_model(self.payload),
            thinking_text: opt_text(self.thinking_text),
            raw: json_model(self.raw),
        }
    }
}

impl Clone for NormalizedEvent {
    fn clone(&self) -> (r: Self)
        ensures
            r@ == self@,
    {
        NormalizedEvent {
            id: self.id.clone(),
            version: self.version.clone(),
            ts: self.ts.clone(),
            event_type: self.event_type,
            source: self.source,
            workspace_id: self.workspace_id.clone(),
            terminal_session_id: self.terminal_session_id.clone(),
            run_id: clone_opt(&self.run_id),
            session_id: clone_opt(&self.session_id),
            agent_id: self.agent_id.clone(),
            target_agent_id: clone_opt(&self.target_agent_id),
            task_id: clone_opt(&self.task_id),
            severity: self.severity,
            payload: value_clone(&self.payload),
            thinking_text: clone_opt(&self.thinking_text),
            raw: value_clone(&self.raw),
        }
    }
}

/// The schema version that events are written in.
pub open spec fn schema_version() -> Seq<char> {
    "1.1"@
}

} // verus!
