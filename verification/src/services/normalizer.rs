//! The normalizer: from a hook payload to a canonical event and its
//! fingerprint.
//!
//! A payload is loosely typed. Every field that is missing, or is not a string
//! where a string is expected, takes a placeholder; only a missing or unknown
//! `hook_type` makes normalization fail.

use vstd::prelude::*;
use vstd::std_specs::hash::DefaultHasherAdditionalSpecFns;
use vstd::string::*;
use vstd::utf8::*;
use serde_json::Value;
use std::collections::hash_map::DefaultHasher;
use std::hash::Hasher;
use crate::error::AppError;
use crate::json::{
    empty_object, get_str, int_of, json_model, json_text, map_insert, map_new, member,
    no_members, number_of, str_member, value_as_i64, value_clone, value_from_i64, value_from_map,
    value_from_string, value_get, value_is_null, value_null, value_to_string, Json,
};
use crate::models::event::{
    schema_version, EventSource, EventType, EventView, NormalizedEvent, Severity,
};
use crate::text::{concat, hex16, hex16_of, opt_str, opt_text, owned, prefix, prefix_of, str_eq};

verus! {

/// The text without characters.
pub open spec fn no_text() -> Seq<char> {
    Seq::empty()
}

/// The text of member `key` of `j`, or `default` if `j` has no such member or
/// the member is not a string.
pub open spec fn text_or(j: Json, key: Seq<char>, default: Seq<char>) -> Seq<char> {
    match str_member(j, key) {
        Some(s) => s,
        None => default,
    }
}

/// The member `key` of `j`, or the empty object if `j` has no such member.
pub open spec fn member_or_empty(j: Json, key: Seq<char>) -> Json {
    match member(j, key) {
        Some(v) => v,
        None => empty_object(),
    }
}

/// The object with one member.
pub open spec fn object1(k1: Seq<char>, v1: Json) -> Json {
    Json::Object(no_members().insert(k1, v1))
}

/// The object with two members.
pub open spec fn object2(k1: Seq<char>, v1: Json, k2: Seq<char>, v2: Json) -> Json {
    Json::Object(no_members().insert(k1, v1).insert(k2, v2))
}

/// The object with three members.
pub open spec fn object3(
    k1: Seq<char>,
    v1: Json,
    k2: Seq<char>,
    v2: Json,
    k3: Seq<char>,
    v3: Json,
) -> Json {
    Json::Object(no_members().insert(k1, v1).insert(k2, v2).insert(k3, v3))
}

/// The agent id that a payload names: team and agent name joined by a slash;
/// the team's leader where only the team is given; the bare agent name where
/// only that is given; else the session id; else `unknown`.
pub open spec fn derive_agent_id_spec(
    team_name: Option<Seq<char>>,
    agent_name: Option<Seq<char>>,
    session_id: Option<Seq<char>>,
) -> Seq<char> {
    match (team_name, agent_name) {
        (Some(team), Some(name)) => team + "/"@ + name,
        (Some(team), None) => team + "/leader"@,
        (None, Some(name)) => name,
        (None, None) => match session_id {
            Some(session) => session,
            None => "unknown"@,
        },
    }
}

/// Derives the id of the agent that a payload speaks of.
pub fn derive_agent_id(
    team_name: Option<&str>,
    agent_name: Option<&str>,
    session_id: Option<&str>,
) -> (r: String)
    ensures
        r@ == derive_agent_id_spec(opt_str(team_name), opt_str(agent_name), opt_str(session_id)),
{
    match (team_name, agent_name) {
        (Some(team), Some(name)) => {
            let mut r = concat(team, "/");
            r.append(name);
            r
        },
        (Some(team), None) => concat(team, "/leader"),
        (None, Some(name)) => String::from_str(name),
        (None, None) => match session_id {
            Some(session) => String::from_str(session),
            None => String::from_str("unknown"),
        },
    }
}

/// What the type of a hook decides of the event: its type, its severity, its
/// payload, and the agent and task it points to.
#[derive(Debug)]
pub struct HookMapping {
    pub event_type: EventType,
    pub severity: Severity,
    pub payload: Value,
    pub target_agent_id: Option<String>,
    pub task_id: Option<String>,
}

/// What a [`HookMapping`] holds.
pub struct HookMappingView {
    pub event_type: EventType,
    pub severity: Severity,
    pub payload: Json,
    pub target_agent_id: Option<Seq<char>>,
    pub task_id: Option<Seq<char>>,
}

impl View for HookMapping {
    type V = HookMappingView;

    open spec fn view(&self) -> HookMappingView {
        HookMappingView {
            event_type: self.event_type,
            severity: self.severity,
            payload: json_model(self.payload),
            target_agent_id: opt_text(self.target_agent_id),
            task_id: opt_text(self.task_id),
        }
    }
}

/// A tool is about to run. The task tool is read further: creating a task makes
/// a task-created event; updating one makes a task-completed, task-started or
/// task-progress event by the status it sets, and points to the task. Every
/// other tool makes a tool-started event.
pub open spec fn pre_tool_use_spec(raw: Json) -> HookMappingView {
    let tool_name = text_or(raw, "tool_name"@, no_text());
    let tool_input = member_or_empty(raw, "tool_input"@);
    let status = str_member(tool_input, "status"@);
    HookMappingView {
        event_type: if tool_name == "TaskCreate"@ {
            EventType::TaskCreated
        } else if tool_name == "TaskUpdate"@ {
            if status == Some("completed"@) {
                EventType::TaskCompleted
            } else if status == Some("in_progress"@) {
                EventType::TaskStarted
            } else {
                EventType::TaskProgress
            }
        } else {
            EventType::ToolStarted
        },
        severity: Severity::Info,
        payload: object2("tool_name"@, Json::String(tool_name), "tool_input"@, tool_input),
        target_agent_id: None,
        task_id: if tool_name == "TaskCreate"@ {
            None
        } else if tool_name == "TaskUpdate"@ {
            str_member(tool_input, "taskId"@)
        } else {
            None
        },
    }
}

/// Whether the payload of a finished tool reports an error: it has a member
/// `error` that is not null.
pub open spec fn reports_error(raw: Json) -> bool {
    member(raw, "error"@) matches Some(e) && !(e is Null)
}

/// The exit code that a payload carries, as JSON: the number if the payload has
/// an integral `exit_code`, null otherwise.
pub open spec fn exit_code_of(raw: Json) -> Json {
    match member(raw, "exit_code"@) {
        Some(code) => match int_of(code) {
            Some(n) => number_of(n),
            None => Json::Null,
        },
        None => Json::Null,
    }
}

/// A tool has run. It failed if the payload reports an error, and succeeded
/// otherwise. A failure is a warning here; whether it is fatal is for the
/// status machine to say.
pub open spec fn post_tool_use_spec(raw: Json) -> HookMappingView {
    let tool_name = text_or(raw, "tool_name"@, no_text());
    if reports_error(raw) {
        HookMappingView {
            event_type: EventType::ToolFailed,
            severity: Severity::Warn,
            payload: object3(
                "tool_name"@,
                Json::String(tool_name),
                "error_message"@,
                Json::String(text_or(raw, "error"@, "unknown error"@)),
                "exit_code"@,
                exit_code_of(raw),
            ),
            target_agent_id: None,
            task_id: None,
        }
    } else {
        HookMappingView {
            event_type: EventType::ToolSucceeded,
            severity: Severity::Info,
            payload: object1("tool_name"@, Json::String(tool_name)),
            target_agent_id: None,
            task_id: None,
        }
    }
}

/// The severity that a notification declares; `Info` if it declares none that
/// is known.
pub open spec fn notification_severity(raw: Json) -> Severity {
    let level = str_member(raw, "level"@);
    if level == Some("error"@) {
        Severity::Error
    } else if level == Some("warn"@) {
        Severity::Warn
    } else if level == Some("debug"@) {
        Severity::Debug
    } else {
        Severity::Info
    }
}

/// What a hook of type `hook_type` with payload `raw` is mapped to; `None` if
/// the type is not one of the known hook types.
pub open spec fn map_hook_type_spec(hook_type: Seq<char>, raw: Json) -> Option<HookMappingView> {
    if hook_type == "SubagentStart"@ {
        Some(
            HookMappingView {
                event_type: EventType::AgentStarted,
                severity: Severity::Info,
                payload: object2(
                    "agent_type"@,
                    Json::String(text_or(raw, "agent_type"@, no_text())),
                    "prompt_preview"@,
                    Json::String(prefix_of(text_or(raw, "prompt"@, no_text()), 200)),
                ),
                target_agent_id: None,
                task_id: None,
            },
        )
    } else if hook_type == "SubagentStop"@ {
        Some(
            HookMappingView {
                event_type: EventType::AgentStopped,
                severity: Severity::Info,
                payload: object1("result"@, Json::String(text_or(raw, "result"@, no_text()))),
                target_agent_id: None,
                task_id: None,
            },
        )
    } else if hook_type == "Stop"@ {
        Some(
            HookMappingView {
                event_type: EventType::AgentStopped,
                severity: Severity::Info,
                payload: object2(
                    "reason"@,
                    Json::String(text_or(raw, "reason"@, no_text())),
                    "summary"@,
                    Json::String(text_or(raw, "summary"@, no_text())),
                ),
                target_agent_id: None,
                task_id: None,
            },
        )
    } else if hook_type == "PreToolUse"@ {
        Some(pre_tool_use_spec(raw))
    } else if hook_type == "PostToolUse"@ {
        Some(post_tool_use_spec(raw))
    } else if hook_type == "Notification"@ {
        Some(
            HookMappingView {
                event_type: EventType::Notification,
                severity: notification_severity(raw),
                payload: object1("message"@, Json::String(text_or(raw, "message"@, no_text()))),
                target_agent_id: None,
                task_id: None,
            },
        )
    } else {
        None
    }
}

/// The thinking text that a payload carries: its member `thinking` if that is a
/// string, else its member `extended_thinking` if that is one.
pub open spec fn extract_thinking_spec(raw: Json) -> Option<Seq<char>> {
    match str_member(raw, "thinking"@) {
        Some(t) => Some(t),
        None => str_member(raw, "extended_thinking"@),
    }
}

/// The part of a timestamp that a fingerprint reads, as bytes: the first
/// nineteen bytes, which in a timestamp such as `2026-02-20T15:00:00Z` are the
/// date and the time to the second. A text that is shorter, or that cannot be
/// cut after nineteen bytes because a character straddles the cut, is read
/// whole.
pub open spec fn second_bucket(ts: Seq<char>) -> Seq<u8> {
    let bytes = encode_utf8(ts);
    if bytes.len() >= 19 && is_char_boundary(bytes, 19) {
        bytes.subrange(0, 19)
    } else {
        bytes
    }
}

/// The byte that closes each part of a fingerprint's input. It occurs in no
/// text, so no two different lists of parts give the same input.
pub open spec fn part_end() -> Seq<u8> {
    seq![0xffu8]
}

/// What is hashed for a fingerprint: the session id, the tool name, the
/// timestamp to the second and the compact text of the payload, each closed by
/// the end-of-part byte.
pub open spec fn fingerprint_input(
    session_id: Seq<char>,
    tool_name: Seq<char>,
    ts: Seq<char>,
    payload: Json,
) -> Seq<Seq<u8>> {
    seq![
        encode_utf8(session_id),
        part_end(),
        encode_utf8(tool_name),
        part_end(),
        second_bucket(ts),
        part_end(),
        encode_utf8(json_text(payload)),
        part_end(),
    ]
}

/// The fingerprint of an event: the hash of its fingerprint input, as sixteen
/// hexadecimal digits.
pub open spec fn fingerprint_spec(
    session_id: Seq<char>,
    tool_name: Seq<char>,
    ts: Seq<char>,
    payload: Json,
) -> Seq<char> {
    hex16_of(DefaultHasher::spec_finish(fingerprint_input(session_id, tool_name, ts, payload)))
}

/// The fingerprint that an event is deduplicated by. Its session id and tool
/// name are empty where the event has none.
pub open spec fn event_fingerprint_spec(event: EventView) -> Seq<char> {
    fingerprint_spec(
        match event.session_id {
            Some(s) => s,
            None => no_text(),
        },
        text_or(event.payload, "tool_name"@, no_text()),
        event.ts,
        event.payload,
    )
}

/// The canonical event for the payload `raw`, or the reason why there is none.
/// `id` is the id that the event is to have, and `received_at` the time that it
/// takes when the payload does not say when it was collected.
pub open spec fn normalize_spec(raw: Json, id: Seq<char>, received_at: Seq<char>) -> Result<
    EventView,
    Seq<char>,
> {
    match str_member(raw, "hook_type"@) {
        None => Err("missing hook_type field"@),
        Some(hook_type) => match map_hook_type_spec(hook_type, raw) {
            None => Err("unknown hook_type: "@ + hook_type),
            Some(mapping) => {
                let meta = member_or_empty(raw, "_meta"@);
                let session_id = str_member(raw, "session_id"@);
                Ok(
                    EventView {
                        id,
                        version: schema_version(),
                        ts: text_or(meta, "collected_at"@, received_at),
                        event_type: mapping.event_type,
                        source: EventSource::Hook,
                        workspace_id: text_or(meta, "workspace_id"@, "unknown"@),
                        terminal_session_id: text_or(meta, "terminal_session_id"@, "unknown"@),
                        run_id: str_member(raw, "run_id"@),
                        session_id,
                        agent_id: derive_agent_id_spec(
                            str_member(raw, "team_name"@),
                            str_member(raw, "agent_name"@),
                            session_id,
                        ),
                        target_agent_id: mapping.target_agent_id,
                        task_id: mapping.task_id,
                        severity: mapping.severity,
                        payload: mapping.payload,
                        thinking_text: extract_thinking_spec(raw),
                        raw,
                    },
                )
            },
        },
    }
}

/// The id of the agent that the payload `raw` speaks of. It is the agent id of
/// the event that the payload is normalized to.
pub open spec fn payload_agent_id(raw: Json) -> Seq<char> {
    derive_agent_id_spec(
        str_member(raw, "team_name"@),
        str_member(raw, "agent_name"@),
        str_member(raw, "session_id"@),
    )
}

/// The id of the agent that a payload speaks of, whether or not the payload can
/// be normalized.
pub fn agent_id_of_payload(raw: &Value) -> (r: String)
    ensures
        r@ == payload_agent_id(json_model(*raw)),
{
    derive_agent_id(
        get_str(raw, "team_name"),
        get_str(raw, "agent_name"),
        get_str(raw, "session_id"),
    )
}

/// The event that a payload is normalized to is an event of the agent that the
/// payload speaks of, and has the id that it was given.
pub proof fn lemma_normalized_event_is_of_payload_agent(
    raw: Json,
    id: Seq<char>,
    received_at: Seq<char>,
)
    requires
        normalize_spec(raw, id, received_at) is Ok,
    ensures
        normalize_spec(raw, id, received_at)->Ok_0.agent_id == payload_agent_id(raw),
        normalize_spec(raw, id, received_at)->Ok_0.id == id,
{
}

/// The text of member `key` of `v`, or `default`.
fn get_str_or<'a>(v: &'a Value, key: &str, default: &'a str) -> (r: &'a str)
    ensures
        r@ == text_or(json_model(*v), key@, default@),
{
    match get_str(v, key) {
        Some(s) => s,
        None => default,
    }
}

/// The text of member `key` of `v`, or the empty text.
fn get_str_or_empty<'a>(v: &'a Value, key: &str) -> (r: &'a str)
    ensures
        r@ == text_or(json_model(*v), key@, no_text()),
{
    proof {
        reveal_strlit("");
        assert(""@ =~= no_text());
    }
    get_str_or(v, key, "")
}

/// A copy of member `key` of `v`, or the empty object.
fn get_or_empty(v: &Value, key: &str) -> (r: Value)
    ensures
        json_model(r) == member_or_empty(json_model(*v), key@),
{
    match value_get(v, key) {
        Some(child) => value_clone(child),
        None => value_from_map(map_new()),
    }
}

/// The JSON string with the text `s`.
fn string_value(s: &str) -> (r: Value)
    ensures
        json_model(r) == Json::String(s@),
{
    value_from_string(String::from_str(s))
}

/// The object with one member.
fn make_object1(k1: &str, v1: Value) -> (r: Value)
    ensures
        json_model(r) == object1(k1@, json_model(v1)),
{
    let mut m = map_new();
    map_insert(&mut m, String::from_str(k1), v1);
    value_from_map(m)
}

/// The object with two members.
fn make_object2(k1: &str, v1: Value, k2: &str, v2: Value) -> (r: Value)
    ensures
        json_model(r) == object2(k1@, json_model(v1), k2@, json_model(v2)),
{
    let mut m = map_new();
    map_insert(&mut m, String::from_str(k1), v1);
    map_insert(&mut m, String::from_str(k2), v2);
    value_from_map(m)
}

/// The object with three members.
fn make_object3(k1: &str, v1: Value, k2: &str, v2: Value, k3: &str, v3: Value) -> (r: Value)
    ensures
        json_model(r) == object3(
            k1@,
            json_model(v1),
            k2@,
            json_model(v2),
            k3@,
            json_model(v3),
        ),
{
    let mut m = map_new();
    map_insert(&mut m, String::from_str(k1), v1);
    map_insert(&mut m, String::from_str(k2), v2);
    map_insert(&mut m, String::from_str(k3), v3);
    value_from_map(m)
}

/// Whether an optional text is the given one.
fn is_text(s: Option<&str>, expected: &str) -> (r: bool)
    ensures
        r == (opt_str(s) == Some(expected@)),
{
    match s {
        Some(t) => str_eq(t, expected),
        None => false,
    }
}

/// Maps the payload of a tool that is about to run.
fn normalize_pre_tool_use(raw: &Value) -> (r: HookMapping)
    ensures
        r@ == pre_tool_use_spec(json_model(*raw)),
{
    let tool_name = get_str_or_empty(raw, "tool_name");
    let tool_input = get_or_empty(raw, "tool_input");
    let mut event_type = EventType::ToolStarted;
    let mut task_id: Option<String> = None;
    if str_eq(tool_name, "TaskCreate") {
        event_type = EventType::TaskCreated;
    } else if str_eq(tool_name, "TaskUpdate") {
        let status = get_str(&tool_input, "status");
        task_id = owned(get_str(&tool_input, "taskId"));
        if is_text(status, "completed") {
            event_type = EventType::TaskCompleted;
        } else if is_text(status, "in_progress") {
            event_type = EventType::TaskStarted;
        } else {
            event_type = EventType::TaskProgress;
        }
    }
    HookMapping {
        event_type,
        severity: Severity::Info,
        payload: make_object2("tool_name", string_value(tool_name), "tool_input", tool_input),
        target_agent_id: None,
        task_id,
    }
}

/// The exit code that a payload carries, as JSON.
fn exit_code_value(raw: &Value) -> (r: Value)
    ensures
        json_model(r) == exit_code_of(json_model(*raw)),
{
    match value_get(raw, "exit_code") {
        Some(code) => match value_as_i64(code) {
            Some(n) => value_from_i64(n),
            None => value_null(),
        },
        None => value_null(),
    }
}

/// Maps the payload of a tool that has run.
fn normalize_post_tool_use(raw: &Value) -> (r: HookMapping)
    ensures
        r@ == post_tool_use_spec(json_model(*raw)),
{
    let tool_name = get_str_or_empty(raw, "tool_name");
    let has_error = match value_get(raw, "error") {
        Some(e) => !value_is_null(e),
        None => false,
    };
    if has_error {
        let error_message = get_str_or(raw, "error", "unknown error");
        HookMapping {
            event_type: EventType::ToolFailed,
            severity: Severity::Warn,
            payload: make_object3(
                "tool_name",
                string_value(tool_name),
                "error_message",
                string_value(error_message),
                "exit_code",
                exit_code_value(raw),
            ),
            target_agent_id: None,
            task_id: None,
        }
    } else {
        HookMapping {
            event_type: EventType::ToolSucceeded,
            severity: Severity::Info,
            payload: make_object1("tool_name", string_value(tool_name)),
            target_agent_id: None,
            task_id: None,
        }
    }
}

/// The severity that a notification declares.
fn severity_of_notification(raw: &Value) -> (r: Severity)
    ensures
        r == notification_severity(json_model(*raw)),
{
    let level = get_str(raw, "level");
    if is_text(level, "error") {
        Severity::Error
    } else if is_text(level, "warn") {
        Severity::Warn
    } else if is_text(level, "debug") {
        Severity::Debug
    } else {
        Severity::Info
    }
}

/// Whether `e` says that `hook_type` is not a known hook type.
pub open spec fn is_unknown_hook_type(e: AppError, hook_type: Seq<char>) -> bool {
    e matches AppError::Normalize(msg) && msg@ == "unknown hook_type: "@ + hook_type
}

/// Maps a hook of type `hook_type` to the type, severity and payload of its
/// event. Fails for a type that is not known.
fn map_hook_type(hook_type: &str, raw: &Value) -> (r: Result<HookMapping, AppError>)
    ensures
        match r {
            Ok(mapping) => map_hook_type_spec(hook_type@, json_model(*raw)) == Some(mapping@),
            Err(e) => map_hook_type_spec(hook_type@, json_model(*raw)) is None
                && is_unknown_hook_type(e, hook_type@),
        },
{
    if str_eq(hook_type, "SubagentStart") {
        let prompt = get_str_or_empty(raw, "prompt");
        Ok(
            HookMapping {
                event_type: EventType::AgentStarted,
                severity: Severity::Info,
                payload: make_object2(
                    "agent_type",
                    string_value(get_str_or_empty(raw, "agent_type")),
                    "prompt_preview",
                    string_value(prefix(prompt, 200)),
                ),
                target_agent_id: None,
                task_id: None,
            },
        )
    } else if str_eq(hook_type, "SubagentStop") {
        Ok(
            HookMapping {
                event_type: EventType::AgentStopped,
                severity: Severity::Info,
                payload: make_object1("result", string_value(get_str_or_empty(raw, "result"))),
                target_agent_id: None,
                task_id: None,
            },
        )
    } else if str_eq(hook_type, "Stop") {
        Ok(
            HookMapping {
                event_type: EventType::AgentStopped,
                severity: Severity::Info,
                payload: make_object2(
                    "reason",
                    string_value(get_str_or_empty(raw, "reason")),
                    "summary",
                    string_value(get_str_or_empty(raw, "summary")),
                ),
                target_agent_id: None,
                task_id: None,
            },
        )
    } else if str_eq(hook_type, "PreToolUse") {
        Ok(normalize_pre_tool_use(raw))
    } else if str_eq(hook_type, "PostToolUse") {
        Ok(normalize_post_tool_use(raw))
    } else if str_eq(hook_type, "Notification") {
        Ok(
            HookMapping {
                event_type: EventType::Notification,
                severity: severity_of_notification(raw),
                payload: make_object1("message", string_value(get_str_or_empty(raw, "message"))),
                target_agent_id: None,
                task_id: None,
            },
        )
    } else {
        Err(AppError::Normalize(concat("unknown hook_type: ", hook_type)))
    }
}

/// The thinking text that a payload carries, if it carries one.
fn extract_thinking(raw: &Value) -> (r: Option<String>)
    ensures
        opt_text(r) == extract_thinking_spec(json_model(*raw)),
{
    match get_str(raw, "thinking") {
        Some(t) => Some(String::from_str(t)),
        None => owned(get_str(raw, "extended_thinking")),
    }
}

/// Whether `e` is the normalization failure with the message `msg`.
pub open spec fn is_normalize_error(e: AppError, msg: Seq<char>) -> bool {
    e matches AppError::Normalize(m) && m@ == msg
}

/// Turns a hook payload into a canonical event.
///
/// `event_id` is the id that the event is to have: the caller makes it, and
/// sees to it that no two events have the same. `received_at` is the time that
/// the event takes when the payload does not say when it was collected. Fails
/// only when the payload has no `hook_type`, or one that is not known.
pub fn normalize(raw: &Value, event_id: String, received_at: &str) -> (r: Result<
    NormalizedEvent,
    AppError,
>)
    ensures
        match r {
            Ok(event) => normalize_spec(json_model(*raw), event_id@, received_at@) == Ok::<
                EventView,
                Seq<char>,
            >(event@),
            Err(e) => (normalize_spec(json_model(*raw), event_id@, received_at@) matches Err(msg)
                && is_normalize_error(e, msg)),
        },
{
    let hook_type = match get_str(raw, "hook_type") {
        Some(h) => h,
        None => {
            return Err(AppError::Normalize(String::from_str("missing hook_type field")));
        },
    };
    let meta = get_or_empty(raw, "_meta");
    let workspace_id = get_str_or(&meta, "workspace_id", "unknown");
    let terminal_session_id = get_str_or(&meta, "terminal_session_id", "unknown");
    let ts = get_str_or(&meta, "collected_at", received_at);
    let session_id = get_str(raw, "session_id");
    let team_name = get_str(raw, "team_name");
    let agent_name = get_str(raw, "agent_name");
    let agent_id = derive_agent_id(team_name, agent_name, session_id);
    let mapping = match map_hook_type(hook_type, raw) {
        Ok(m) => m,
        Err(e) => {
            return Err(e);
        },
    };
    Ok(
        NormalizedEvent {
            id: event_id,
            version: String::from_str("1.1"),
            ts: String::from_str(ts),
            event_type: mapping.event_type,
            source: EventSource::Hook,
            workspace_id: String::from_str(workspace_id),
            terminal_session_id: String::from_str(terminal_session_id),
            run_id: owned(get_str(raw, "run_id")),
            session_id: owned(session_id),
            agent_id,
            target_agent_id: mapping.target_agent_id,
            task_id: mapping.task_id,
            severity: mapping.severity,
            payload: mapping.payload,
            thinking_text: extract_thinking(raw),
            raw: value_clone(raw),
        },
    )
}

/// The timestamp cut to the second.
fn second_prefix<'a>(ts: &'a str) -> (r: &'a str)
    ensures
        r.spec_bytes() == second_bucket(ts@),
{
    if ts.as_bytes().len() >= 19 && ts.is_char_boundary(19) {
        let parts = ts.split_at(19);
        parts.0
    } else {
        ts
    }
}

/// Feeds one part of a fingerprint's input to the hasher.
fn write_part(hasher: &mut DefaultHasher, part: &str)
    ensures
        final(hasher)@ == old(hasher)@.push(part.spec_bytes()).push(part_end()),
{
    hasher.write(part.as_bytes());
    let end: Vec<u8> = vec![0xffu8];
    assert(end@ =~= part_end());
    hasher.write(end.as_slice());
}

/// Computes the fingerprint by which redelivered events are recognized: a hash
/// over the session id, the tool name, the timestamp cut to the second, and the
/// compact text of the payload.
pub fn generate_fingerprint(session_id: &str, tool_name: &str, ts: &str, payload: &Value) -> (r:
    String)
    ensures
        r@ == fingerprint_spec(session_id@, tool_name@, ts@, json_model(*payload)),
{
    let mut hasher = DefaultHasher::new();
    write_part(&mut hasher, session_id);
    write_part(&mut hasher, tool_name);
    write_part(&mut hasher, second_prefix(ts));
    let payload_text = value_to_string(payload);
    write_part(&mut hasher, payload_text.as_str());
    assert(hasher@ =~= fingerprint_input(session_id@, tool_name@, ts@, json_model(*payload)));
    hex16(hasher.finish())
}

/// Computes the fingerprint that an event is deduplicated by.
pub fn event_fingerprint(event: &NormalizedEvent) -> (r: String)
    ensures
        r@ == event_fingerprint_spec(event@),
{
    let session_id: &str = match &event.session_id {
        Some(s) => s.as_str(),
        None => "",
    };
    proof {
        reveal_strlit("");
        assert(""@ =~= no_text());
    }
    let tool_name = get_str_or_empty(&event.payload, "tool_name");
    generate_fingerprint(session_id, tool_name, event.ts.as_str(), &event.payload)
}

/// Two events of one session, with timestamps within one second and the same
/// payload, have the same fingerprint, whatever their ids.
pub proof fn lemma_same_logical_event_same_fingerprint(first: EventView, second: EventView)
    requires
        first.session_id == second.session_id,
        first.payload == second.payload,
        second_bucket(first.ts) == second_bucket(second.ts),
    ensures
        event_fingerprint_spec(first) == event_fingerprint_spec(second),
{
    let session = match first.session_id {
        Some(s) => s,
        None => no_text(),
    };
    let tool = text_or(first.payload, "tool_name"@, no_text());
    assert(fingerprint_input(session, tool, first.ts, first.payload) =~= fingerprint_input(
        session,
        tool,
        second.ts,
        second.payload,
    ));
}

/// Normalizing one payload twice, under different ids, gives events with the
/// same fingerprint, provided the payload says when it was collected or both
/// were received within one second.
pub proof fn lemma_redelivery_has_same_fingerprint(
    raw: Json,
    first_id: Seq<char>,
    second_id: Seq<char>,
    first_received: Seq<char>,
    second_received: Seq<char>,
)
    requires
        normalize_spec(raw, first_id, first_received) is Ok,
        str_member(member_or_empty(raw, "_meta"@), "collected_at"@) is Some || second_bucket(
            first_received,
        ) == second_bucket(second_received),
    ensures
        normalize_spec(raw, second_id, second_received) is Ok,
        event_fingerprint_spec(normalize_spec(raw, first_id, first_received)->Ok_0)
            == event_fingerprint_spec(normalize_spec(raw, second_id, second_received)->Ok_0),
{
    lemma_same_logical_event_same_fingerprint(
        normalize_spec(raw, first_id, first_received)->Ok_0,
        normalize_spec(raw, second_id, second_received)->Ok_0,
    );
}

} // verus!
