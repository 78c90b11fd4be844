//! The status machine: which status an agent takes when an event arrives.
//!
//! The machine owns no storage. It is handed one agent's state, changes it in
//! place, and reports whether the status changed; the caller stores the state
//! either way.

use vstd::prelude::*;
use vstd::string::*;
use crate::config::{StateMachineConfig, StateMachineConfigView};
use crate::json::{get_str, str_member, Json};
use crate::models::agent::{AgentState, AgentStateView, AgentStatus};
use crate::models::event::{EventType, EventView, NormalizedEvent};
use crate::text::{
    clone_opt, contains, has_text, is_filled, is_substring, lowercase, to_lowercase,
};

verus! {

/// What an event did to an agent's status.
#[derive(Debug, Clone, Copy, PartialEq, Eq, Structural)]
pub enum TransitionResult {
    /// A transition was taken, from `prev_status` to `new_status`.
    Changed { prev_status: AgentStatus, new_status: AgentStatus },
    /// No rule applies to this status and event, or the event was a heartbeat.
    NoOp,
}

/// The error message that a tool-failure payload carries; empty if it carries
/// none.
pub open spec fn failure_message(payload: Json) -> Seq<char> {
    match str_member(payload, "error_message"@) {
        Some(m) => m,
        None => Seq::empty(),
    }
}

/// Whether one of the keywords occurs in the message, letter for letter.
pub open spec fn holds_one_of(message: Seq<char>, keywords: Seq<Seq<char>>) -> bool {
    exists|i: int| 0 <= i < keywords.len() && is_substring(message, #[trigger] keywords[i])
}

/// The keywords in lower case.
pub open spec fn lowered(keywords: Seq<Seq<char>>) -> Seq<Seq<char>> {
    Seq::new(keywords.len(), |i: int| lowercase(keywords[i]))
}

/// Whether a failure message holds one of the fatal keywords, in any letter
/// case.
pub open spec fn names_fatal_keyword(message: Seq<char>, keywords: Seq<Seq<char>>) -> bool {
    holds_one_of(lowercase(message), lowered(keywords))
}

/// The status that a tool failure leads to, given its message and the fatal
/// keywords, both in lower case: `Failed` if the message holds a keyword or the
/// failure streak has reached the threshold, `PendingInput` otherwise.
pub open spec fn failure_class(
    lower_message: Seq<char>,
    lower_keywords: Seq<Seq<char>>,
    consecutive_failures: u32,
    threshold: u32,
) -> AgentStatus {
    if holds_one_of(lower_message, lower_keywords) {
        AgentStatus::Failed
    } else if consecutive_failures >= threshold {
        AgentStatus::Failed
    } else {
        AgentStatus::PendingInput
    }
}

/// The status that a tool failure leads to: `Failed` if its message holds a
/// fatal keyword or the failure streak has reached the configured count,
/// `PendingInput` otherwise.
pub open spec fn classify_failure_spec(
    payload: Json,
    config: StateMachineConfigView,
    consecutive_failures: u32,
) -> AgentStatus {
    failure_class(
        lowercase(failure_message(payload)),
        lowered(config.fatal_keywords),
        consecutive_failures,
        config.fatal_consecutive_failures,
    )
}

/// The transition table. `on_failure` is the status that a tool failure leads
/// to from `Working`; every other entry is fixed. `None` means that the table
/// has no entry for the pair.
pub open spec fn table_entry(
    current: AgentStatus,
    event_type: EventType,
    on_failure: AgentStatus,
) -> Option<AgentStatus> {
    match (current, event_type) {
        (AgentStatus::Offline, EventType::AgentStarted) => Some(AgentStatus::Appearing),
        (AgentStatus::Appearing, EventType::AppearDone) => Some(AgentStatus::Idle),
        (AgentStatus::Idle, EventType::TaskStarted) => Some(AgentStatus::Working),
        (AgentStatus::Idle, EventType::ToolStarted) => Some(AgentStatus::Working),
        (AgentStatus::Idle, EventType::MessageSent) => Some(AgentStatus::Walking),
        (AgentStatus::Working, EventType::ThinkingUpdated) => Some(AgentStatus::Thinking),
        (AgentStatus::Working, EventType::TaskCompleted) => Some(AgentStatus::Completed),
        (AgentStatus::Working, EventType::TaskFailed) => Some(AgentStatus::Failed),
        (AgentStatus::Working, EventType::ToolFailed) => Some(on_failure),
        (AgentStatus::Working, EventType::ToolStarted) => Some(AgentStatus::Working),
        (AgentStatus::Working, EventType::ToolSucceeded) => Some(AgentStatus::Working),
        (AgentStatus::Working, EventType::MessageSent) => Some(AgentStatus::Walking),
        (AgentStatus::Thinking, EventType::ToolStarted) => Some(AgentStatus::Working),
        (AgentStatus::Thinking, EventType::TaskCompleted) => Some(AgentStatus::Completed),
        (AgentStatus::Thinking, EventType::TaskFailed) => Some(AgentStatus::Failed),
        (AgentStatus::Thinking, EventType::ThinkingUpdated) => Some(AgentStatus::Thinking),
        (AgentStatus::PendingInput, EventType::AgentUnblocked) => Some(AgentStatus::Working),
        (AgentStatus::PendingInput, EventType::TaskStarted) => Some(AgentStatus::Working),
        (AgentStatus::Failed, EventType::AgentUnblocked) => Some(AgentStatus::Working),
        (AgentStatus::Failed, EventType::TaskStarted) => Some(AgentStatus::Working),
        (AgentStatus::Completed, EventType::TaskStarted) => Some(AgentStatus::Working),
        (AgentStatus::Disappearing, EventType::DisappearDone) => Some(AgentStatus::Offline),
        (AgentStatus::Resting, EventType::TaskStarted) => Some(AgentStatus::Startled),
        (AgentStatus::Resting, EventType::MessageReceived) => Some(AgentStatus::Startled),
        (AgentStatus::Resting, EventType::MessageSent) => Some(AgentStatus::Startled),
        (AgentStatus::Walking, EventType::ArriveAtPeer) => Some(AgentStatus::Chatting),
        (AgentStatus::Chatting, EventType::MessageDone) => Some(AgentStatus::Returning),
        _ => None,
    }
}

/// Whether the transition table has an entry for the pair.
pub open spec fn in_table(current: AgentStatus, event_type: EventType) -> bool {
    table_entry(current, event_type, AgentStatus::Failed) is Some
}

/// What the transition table gives for an agent in status `current` on `event`.
pub open spec fn find_transition_spec(
    current: AgentStatus,
    event: EventView,
    config: StateMachineConfigView,
    consecutive_failures: u32,
) -> Option<AgentStatus> {
    table_entry(
        current,
        event.event_type,
        classify_failure_spec(event.payload, config, consecutive_failures),
    )
}

/// Whether the stop rule applies: a stop event reaches an agent that is not
/// offline.
pub open spec fn stops(current: AgentStatus, event_type: EventType) -> bool {
    event_type == EventType::AgentStopped && current != AgentStatus::Offline
}

/// Whether a startled agent is told that its start has been shown.
pub open spec fn wakes(current: AgentStatus, event_type: EventType) -> bool {
    current == AgentStatus::Startled && event_type == EventType::StartledDone
}

/// Whether a returning agent is told that it has arrived at home.
pub open spec fn arrives_home(current: AgentStatus, event_type: EventType) -> bool {
    current == AgentStatus::Returning && event_type == EventType::ArriveAtHome
}

/// Whether any rule of the machine speaks of the pair: the stop rule, the
/// table, or one of the two rules that read more of the state.
pub open spec fn has_rule(current: AgentStatus, event_type: EventType) -> bool {
    event_type != EventType::Heartbeat && (stops(current, event_type) || in_table(
        current,
        event_type,
    ) || wakes(current, event_type) || arrives_home(current, event_type))
}

/// The status that `event` moves the agent to, or `None` if it moves it
/// nowhere. A heartbeat moves no agent. Otherwise the stop rule is tried first,
/// then the table, then the two rules that read more of the state.
pub open spec fn next_status(
    state: AgentStateView,
    event: EventView,
    config: StateMachineConfigView,
    consecutive_failures: u32,
) -> Option<AgentStatus> {
    let current = state.status;
    let event_type = event.event_type;
    if event_type == EventType::Heartbeat {
        None
    } else if stops(current, event_type) {
        Some(AgentStatus::Disappearing)
    } else if in_table(current, event_type) {
        find_transition_spec(current, event, config, consecutive_failures)
    } else if wakes(current, event_type) {
        if state.current_task is Some {
            Some(AgentStatus::Working)
        } else {
            Some(AgentStatus::Idle)
        }
    } else if arrives_home(current, event_type) {
        match state.prev_status {
            Some(saved) => Some(saved),
            None => Some(AgentStatus::Idle),
        }
    } else {
        None
    }
}

/// Whether `event` sends the agent off to a peer: the table leads to `Walking`.
pub open spec fn sets_out(state: AgentStateView, event: EventView) -> bool {
    event.event_type != EventType::Heartbeat && !stops(state.status, event.event_type)
        && table_entry(state.status, event.event_type, AgentStatus::Failed) == Some(
        AgentStatus::Walking,
    )
}

/// Whether `event` brings the agent home: the rule for arriving at home is the
/// one that applies.
pub open spec fn gets_home(state: AgentStateView, event: EventView) -> bool {
    event.event_type != EventType::Heartbeat && !stops(state.status, event.event_type)
        && !in_table(state.status, event.event_type) && arrives_home(
        state.status,
        event.event_type,
    )
}

/// The state after `event`. The time of the last event is always that of
/// `event`. If the event moves the agent, the new status begins at the time of
/// the event, a thinking text that the event carries replaces the stored one,
/// and a tool that the payload names becomes the current task. Setting out to
/// a peer saves the status to come back to; arriving at home forgets it.
pub open spec fn on_event_spec(
    state: AgentStateView,
    event: EventView,
    config: StateMachineConfigView,
    consecutive_failures: u32,
) -> AgentStateView {
    match next_status(state, event, config, consecutive_failures) {
        None => AgentStateView { last_event_ts: event.ts, ..state },
        Some(next) => AgentStateView {
            status: next,
            since: event.ts,
            last_event_ts: event.ts,
            prev_status: if sets_out(state, event) {
                Some(state.status)
            } else if gets_home(state, event) {
                None
            } else {
                state.prev_status
            },
            peer_agent_id: if sets_out(state, event) {
                event.target_agent_id
            } else if gets_home(state, event) {
                None
            } else {
                state.peer_agent_id
            },
            thinking_text: if has_text(event.thinking_text) {
                event.thinking_text
            } else {
                state.thinking_text
            },
            current_task: match str_member(event.payload, "tool_name"@) {
                Some(tool) => Some(tool),
                None => state.current_task,
            },
            ..state
        },
    }
}

/// What the machine reports for `event`: the old and the new status if the
/// event moves the agent, no-op otherwise.
pub open spec fn outcome(
    state: AgentStateView,
    event: EventView,
    config: StateMachineConfigView,
    consecutive_failures: u32,
) -> TransitionResult {
    match next_status(state, event, config, consecutive_failures) {
        None => TransitionResult::NoOp,
        Some(next) => TransitionResult::Changed { prev_status: state.status, new_status: next },
    }
}

/// Classifies a tool failure whose message and fatal keywords have been put in
/// lower case: fatal if the message holds one of the keywords or the failure
/// streak has reached the threshold, waiting for input otherwise.
pub fn classify_lowered(
    lower_message: &str,
    lower_keywords: &Vec<String>,
    consecutive_failures: u32,
    threshold: u32,
) -> (r: AgentStatus)
    ensures
        r == failure_class(
            lower_message@,
            lower_keywords.deep_view(),
            consecutive_failures,
            threshold,
        ),
{
    let ghost keywords = lower_keywords.deep_view();
    let mut i: usize = 0;
    while i < lower_keywords.len()
        invariant
            i <= lower_keywords.len(),
            keywords == lower_keywords.deep_view(),
            keywords.len() == lower_keywords.len(),
            forall|k: int| 0 <= k < i ==> !is_substring(lower_message@, #[trigger] keywords[k]),
        decreases lower_keywords.len() - i,
    {
        assert(keywords[i as int] == lower_keywords@[i as int]@);
        if contains(lower_message, lower_keywords[i].as_str()) {
            return AgentStatus::Failed;
        }
        i = i + 1;
    }
    if consecutive_failures >= threshold {
        AgentStatus::Failed
    } else {
        AgentStatus::PendingInput
    }
}

/// The texts of a list in lower case.
fn lower_all(list: &Vec<String>) -> (r: Vec<String>)
    ensures
        r.deep_view() == lowered(list.deep_view()),
{
    let mut out: Vec<String> = Vec::new();
    let mut i: usize = 0;
    while i < list.len()
        invariant
            i <= list@.len(),
            out@.len() == i,
            forall|k: int| 0 <= k < i ==> (#[trigger] out@[k])@ == lowercase(list@[k]@),
        decreases list@.len() - i,
    {
        out.push(to_lowercase(list[i].as_str()));
        i = i + 1;
    }
    assert(out.deep_view() =~= lowered(list.deep_view()));
    out
}

/// Classifies a tool failure as fatal or as waiting for input.
pub fn classify_failure(
    event: &NormalizedEvent,
    config: &StateMachineConfig,
    consecutive_failures: u32,
) -> (r: AgentStatus)
    ensures
        r == classify_failure_spec(event@.payload, config@, consecutive_failures),
{
    let message: &str = match get_str(&event.payload, "error_message") {
        Some(m) => m,
        None => "",
    };
    proof {
        reveal_strlit("");
        assert(""@ =~= Seq::<char>::empty());
    }
    let lower_message = to_lowercase(message);
    let lower_keywords = lower_all(&config.fatal_keywords);
    classify_lowered(
        lower_message.as_str(),
        &lower_keywords,
        consecutive_failures,
        config.fatal_consecutive_failures,
    )
}

/// Looks the pair of status and event type up in the transition table.
pub fn find_transition(
    current: AgentStatus,
    event: &NormalizedEvent,
    config: &StateMachineConfig,
    consecutive_failures: u32,
) -> (r: Option<AgentStatus>)
    ensures
        r == find_transition_spec(current, event@, config@, consecutive_failures),
        r is Some <==> in_table(current, event@.event_type),
{
    match (current, event.event_type) {
        (AgentStatus::Offline, EventType::AgentStarted) => Some(AgentStatus::Appearing),
        (AgentStatus::Appearing, EventType::AppearDone) => Some(AgentStatus::Idle),
        (AgentStatus::Idle, EventType::TaskStarted) => Some(AgentStatus::Working),
        (AgentStatus::Idle, EventType::ToolStarted) => Some(AgentStatus::Working),
        (AgentStatus::Idle, EventType::MessageSent) => Some(AgentStatus::Walking),
        (AgentStatus::Working, EventType::ThinkingUpdated) => Some(AgentStatus::Thinking),
        (AgentStatus::Working, EventType::TaskCompleted) => Some(AgentStatus::Completed),
        (AgentStatus::Working, EventType::TaskFailed) => Some(AgentStatus::Failed),
        (AgentStatus::Working, EventType::ToolFailed) => Some(
            classify_failure(event, config, consecutive_failures),
        ),
        (AgentStatus::Working, EventType::ToolStarted) => Some(AgentStatus::Working),
        (AgentStatus::Working, EventType::ToolSucceeded) => Some(AgentStatus::Working),
        (AgentStatus::Working, EventType::MessageSent) => Some(AgentStatus::Walking),
        (AgentStatus::Thinking, EventType::ToolStarted) => Some(AgentStatus::Working),
        (AgentStatus::Thinking, EventType::TaskCompleted) => Some(AgentStatus::Completed),
        (AgentStatus::Thinking, EventType::TaskFailed) => Some(AgentStatus::Failed),
        (AgentStatus::Thinking, EventType::ThinkingUpdated) => Some(AgentStatus::Thinking),
        (AgentStatus::PendingInput, EventType::AgentUnblocked) => Some(AgentStatus::Working),
        (AgentStatus::PendingInput, EventType::TaskStarted) => Some(AgentStatus::Working),
        (AgentStatus::Failed, EventType::AgentUnblocked) => Some(AgentStatus::Working),
        (AgentStatus::Failed, EventType::TaskStarted) => Some(AgentStatus::Working),
        (AgentStatus::Completed, EventType::TaskStarted) => Some(AgentStatus::Working),
        (AgentStatus::Disappearing, EventType::DisappearDone) => Some(AgentStatus::Offline),
        (AgentStatus::Resting, EventType::TaskStarted) => Some(AgentStatus::Startled),
        (AgentStatus::Resting, EventType::MessageReceived) => Some(AgentStatus::Startled),
        (AgentStatus::Resting, EventType::MessageSent) => Some(AgentStatus::Startled),
        (AgentStatus::Walking, EventType::ArriveAtPeer) => Some(AgentStatus::Chatting),
        (AgentStatus::Chatting, EventType::MessageDone) => Some(AgentStatus::Returning),
        _ => None,
    }
}

/// Enters `next_status` at time `ts`, taking over what the event carries: its
/// thinking text, if it has one, and the tool that its payload names, if it
/// names one.
fn apply_transition(
    state: &mut AgentState,
    next_status: AgentStatus,
    event: &NormalizedEvent,
    prev: AgentStatus,
) -> (r: TransitionResult)
    ensures
        r == (TransitionResult::Changed { prev_status: prev, new_status: next_status }),
        final(state)@ == (AgentStateView {
            status: next_status,
            since: event@.ts,
            thinking_text: if has_text(event@.thinking_text) {
                event@.thinking_text
            } else {
                old(state)@.thinking_text
            },
            current_task: match str_member(event@.payload, "tool_name"@) {
                Some(tool) => Some(tool),
                None => old(state)@.current_task,
            },
            ..old(state)@
        }),
{
    if is_filled(&event.thinking_text) {
        state.thinking_text = clone_opt(&event.thinking_text);
    }
    match get_str(&event.payload, "tool_name") {
        Some(tool) => {
            state.current_task = Some(String::from_str(tool));
        },
        None => {},
    }
    state.status = next_status;
    state.since = event.ts.clone();
    TransitionResult::Changed { prev_status: prev, new_status: next_status }
}

/// Feeds one event to the machine. The state is changed in place: store it
/// whatever the result, and publish a notification only when the result is
/// `Changed`.
///
/// `consecutive_failures` is the number of tool failures in a row that the
/// caller has counted for this agent.
pub fn on_event(
    event: &NormalizedEvent,
    state: &mut AgentState,
    config: &StateMachineConfig,
    consecutive_failures: u32,
) -> (r: TransitionResult)
    ensures
        final(state)@ == on_event_spec(old(state)@, event@, config@, consecutive_failures),
        r == outcome(old(state)@, event@, config@, consecutive_failures),
{
    let prev = state.status;
    state.last_event_ts = event.ts.clone();
    if event.event_type == EventType::Heartbeat {
        return TransitionResult::NoOp;
    }
    if event.event_type == EventType::AgentStopped && prev != AgentStatus::Offline {
        return apply_transition(state, AgentStatus::Disappearing, event, prev);
    }
    match find_transition(prev, event, config, consecutive_failures) {
        Some(next) => {
            if next == AgentStatus::Walking {
                state.prev_status = Some(prev);
                state.peer_agent_id = clone_opt(&event.target_agent_id);
            }
            return apply_transition(state, next, event, prev);
        },
        None => {},
    }
    if prev == AgentStatus::Startled && event.event_type == EventType::StartledDone {
        let next = if state.current_task.is_some() {
            AgentStatus::Working
        } else {
            AgentStatus::Idle
        };
        return apply_transition(state, next, event, prev);
    }
    if prev == AgentStatus::Returning && event.event_type == EventType::ArriveAtHome {
        let next = match state.prev_status {
            Some(saved) => saved,
            None => AgentStatus::Idle,
        };
        state.prev_status = None;
        state.peer_agent_id = None;
        return apply_transition(state, next, event, prev);
    }
    TransitionResult::NoOp
}

/// The next status is a function of what the rules read. Two agents in the
/// same status that receive events of the same type, under one configuration
/// and one failure streak, take the same status, provided they agree in what
/// the three rules that look further read: the failure message of a tool
/// failure while working, whether a startled agent has a current task, and the
/// status that a returning agent has saved.
pub proof fn lemma_next_status_determined(
    first: AgentStateView,
    second: AgentStateView,
    first_event: EventView,
    second_event: EventView,
    config: StateMachineConfigView,
    consecutive_failures: u32,
)
    requires
        first.status == second.status,
        first_event.event_type == second_event.event_type,
        first.status == AgentStatus::Working && first_event.event_type == EventType::ToolFailed
            ==> failure_message(first_event.payload) == failure_message(second_event.payload),
        wakes(first.status, first_event.event_type) ==> (first.current_task is Some
            <==> second.current_task is Some),
        arrives_home(first.status, first_event.event_type) ==> first.prev_status
            == second.prev_status,
    ensures
        next_status(first, first_event, config, consecutive_failures) == next_status(
            second,
            second_event,
            config,
            consecutive_failures,
        ),
        outcome(first, first_event, config, consecutive_failures) == outcome(
            second,
            second_event,
            config,
            consecutive_failures,
        ),
{
}

/// A pair of status and event type that no rule speaks of is a no-op: the
/// machine reports no change, and nothing but the time of the last event
/// changes.
pub proof fn lemma_unlisted_pair_is_noop(
    state: AgentStateView,
    event: EventView,
    config: StateMachineConfigView,
    consecutive_failures: u32,
)
    requires
        !has_rule(state.status, event.event_type),
    ensures
        outcome(state, event, config, consecutive_failures) == TransitionResult::NoOp,
        on_event_spec(state, event, config, consecutive_failures) == (AgentStateView {
            last_event_ts: event.ts,
            ..state
        }),
{
}

/// A pair that a rule speaks of is a transition: the machine reports the old
/// status and the new one, and the new status is the one the state then has.
pub proof fn lemma_listed_pair_changes(
    state: AgentStateView,
    event: EventView,
    config: StateMachineConfigView,
    consecutive_failures: u32,
)
    requires
        has_rule(state.status, event.event_type),
    ensures
        outcome(state, event, config, consecutive_failures) matches TransitionResult::Changed {
            prev_status,
            new_status,
        } && prev_status == state.status && new_status == on_event_spec(
            state,
            event,
            config,
            consecutive_failures,
        ).status,
{
}

/// The time of the last event always becomes that of the event. The time at
/// which the status began becomes that of the event when a transition is taken,
/// and stays as it was, like the status itself, when none is. Who the agent is
/// never changes.
pub proof fn lemma_timestamps_follow_transitions(
    state: AgentStateView,
    event: EventView,
    config: StateMachineConfigView,
    consecutive_failures: u32,
)
    ensures
        ({
            let after = on_event_spec(state, event, config, consecutive_failures);
            let result = outcome(state, event, config, consecutive_failures);
            &&& after.last_event_ts == event.ts
            &&& after.agent_id == state.agent_id
            &&& after.workspace_id == state.workspace_id
            &&& after.session_id == state.session_id
            &&& after.home_x_bits == state.home_x_bits
            &&& result is Changed ==> after.since == event.ts
            &&& result is NoOp ==> after.since == state.since && after.status == state.status
        }),
{
}

/// A heartbeat event moves no agent, whatever its status.
pub proof fn lemma_heartbeat_event_is_noop(
    state: AgentStateView,
    event: EventView,
    config: StateMachineConfigView,
    consecutive_failures: u32,
)
    requires
        event.event_type == EventType::Heartbeat,
    ensures
        outcome(state, event, config, consecutive_failures) == TransitionResult::NoOp,
        on_event_spec(state, event, config, consecutive_failures).status == state.status,
{
}

/// A stop event sends every agent that is not offline to `Disappearing`.
pub proof fn lemma_stop_event_disappears(
    state: AgentStateView,
    event: EventView,
    config: StateMachineConfigView,
    consecutive_failures: u32,
)
    requires
        event.event_type == EventType::AgentStopped,
        state.status != AgentStatus::Offline,
    ensures
        on_event_spec(state, event, config, consecutive_failures).status
            == AgentStatus::Disappearing,
{
}

/// A tool failure whose message holds a fatal keyword makes a working agent
/// fail, whatever the failure streak.
pub proof fn lemma_fatal_keyword_fails(
    state: AgentStateView,
    event: EventView,
    config: StateMachineConfigView,
    consecutive_failures: u32,
)
    requires
        state.status == AgentStatus::Working,
        event.event_type == EventType::ToolFailed,
        names_fatal_keyword(failure_message(event.payload), config.fatal_keywords),
    ensures
        on_event_spec(state, event, config, consecutive_failures).status == AgentStatus::Failed,
        outcome(state, event, config, consecutive_failures) == (TransitionResult::Changed {
            prev_status: AgentStatus::Working,
            new_status: AgentStatus::Failed,
        }),
{
}

/// A tool failure whose message holds no fatal keyword makes a working agent
/// wait for input as long as the failure streak is below the configured count,
/// and makes it fail from then on.
pub proof fn lemma_other_failure_goes_by_streak(
    state: AgentStateView,
    event: EventView,
    config: StateMachineConfigView,
    consecutive_failures: u32,
)
    requires
        state.status == AgentStatus::Working,
        event.event_type == EventType::ToolFailed,
        !names_fatal_keyword(failure_message(event.payload), config.fatal_keywords),
    ensures
        on_event_spec(state, event, config, consecutive_failures).status == if consecutive_failures
            < config.fatal_consecutive_failures {
            AgentStatus::PendingInput
        } else {
            AgentStatus::Failed
        },
{
}

} // verus!
