//! What the display layer asks for and reports: the agents there are, and the
//! animations, movements and chats that have ended.

use vstd::prelude::*;
use vstd::string::*;
use crate::config::{StateMachineConfig, StateMachineConfigView};
use crate::http::ingest::change_notice;
use crate::json::{empty_object, map_new, value_from_map};
use crate::models::agent::{AgentStateView, AgentStatus, MascotAgent, MascotAgentView};
use crate::models::event::{
    schema_version, EventSource, EventType, EventView, NormalizedEvent, Severity,
};
use crate::models::notification::{notifications_view, Notification, NotificationView};
use crate::services::state_machine::{on_event, on_event_spec, outcome, TransitionResult};
use crate::storage::agents_repo::{agent_of_record, agent_record, AgentRecordView};
use crate::storage::events_repo::{
    log_count, recent_events, resume_view, ResumeEvent, ResumeEventView,
};
use crate::storage::db::{
    db_upsert_state, lemma_state_has_agent, Database, DatabaseView,
};
use crate::storage::keys::lemma_key_index;
use crate::storage::state_repo::{state_ids, state_of};
use crate::text::{clone_opt, str_eq};

verus! {

/// The event that the end of an animation stands for, if the animation is one
/// that the status machine waits for.
pub open spec fn animation_event(animation: Seq<char>) -> Option<EventType> {
    if animation == "appear"@ {
        Some(EventType::AppearDone)
    } else if animation == "disappear"@ {
        Some(EventType::DisappearDone)
    } else if animation == "startled"@ {
        Some(EventType::StartledDone)
    } else {
        None
    }
}

/// The event that the end of a movement stands for, if the movement is one that
/// the status machine waits for.
pub open spec fn movement_event(movement_type: Seq<char>) -> Option<EventType> {
    if movement_type == "arrive_at_peer"@ {
        Some(EventType::ArriveAtPeer)
    } else if movement_type == "arrive_at_home"@ {
        Some(EventType::ArriveAtHome)
    } else {
        None
    }
}

/// The event that is made for an agent in state `state` when the display layer
/// reports, at time `ts`, what `event_type` stands for.
pub open spec fn synthetic_event(
    state: AgentStateView,
    agent_id: Seq<char>,
    event_type: EventType,
    event_id: Seq<char>,
    ts: Seq<char>,
) -> EventView {
    EventView {
        id: event_id,
        version: schema_version(),
        ts,
        event_type,
        source: EventSource::Synthetic,
        workspace_id: state.workspace_id,
        terminal_session_id: "webview"@,
        run_id: None,
        session_id: state.session_id,
        agent_id,
        target_agent_id: None,
        task_id: None,
        severity: Severity::Debug,
        payload: empty_object(),
        thinking_text: None,
        raw: empty_object(),
    }
}

/// The state of the agent `agent_id` after the display layer has reported what
/// `event_type` stands for, if the agent has a state.
pub open spec fn synthetic_after(
    db: DatabaseView,
    config: StateMachineConfigView,
    agent_id: Seq<char>,
    event_type: EventType,
    event_id: Seq<char>,
    ts: Seq<char>,
) -> Option<AgentStateView> {
    match state_of(db.states, agent_id) {
        Some(state) => Some(
            on_event_spec(
                state,
                synthetic_event(state, agent_id, event_type, event_id, ts),
                config,
                0,
            ),
        ),
        None => None,
    }
}

/// The store after the display layer has reported what `event_type` stands for.
/// A report for an agent without a state changes nothing.
pub open spec fn synthetic_db(
    db: DatabaseView,
    config: StateMachineConfigView,
    agent_id: Seq<char>,
    event_type: EventType,
    event_id: Seq<char>,
    ts: Seq<char>,
) -> DatabaseView {
    match synthetic_after(db, config, agent_id, event_type, event_id, ts) {
        Some(after) => db_upsert_state(db, after),
        None => db,
    }
}

/// What is published after the display layer has reported what `event_type`
/// stands for: that the agent has departed or changed status, if the report
/// moved it, and nothing otherwise.
pub open spec fn synthetic_notices(
    db: DatabaseView,
    config: StateMachineConfigView,
    agent_id: Seq<char>,
    event_type: EventType,
    event_id: Seq<char>,
    ts: Seq<char>,
) -> Seq<NotificationView> {
    match state_of(db.states, agent_id) {
        Some(state) => {
            let event = synthetic_event(state, agent_id, event_type, event_id, ts);
            let after = on_event_spec(state, event, config, 0);
            match outcome(state, event, config, 0) {
                TransitionResult::Changed { prev_status, new_status } => seq![
                    change_notice(
                        agent_id,
                        after.workspace_id,
                        ts,
                        prev_status,
                        new_status,
                        after,
                        None,
                    ),
                ],
                TransitionResult::NoOp => Seq::empty(),
            }
        },
        None => Seq::empty(),
    }
}

/// Feeds a report of the display layer to the status machine, as an event of
/// type `event_type` for the agent `agent_id` at time `ts`, stores the state
/// that results, and returns what is to be published. Such an event goes
/// neither through normalization nor into the log. A report for an agent
/// without a state is dropped.
pub fn process_synthetic_event(
    db: &mut Database,
    config: &StateMachineConfig,
    agent_id: &str,
    event_type: EventType,
    event_id: String,
    ts: &str,
) -> (r: Vec<Notification>)
    ensures
        final(db)@ == synthetic_db(old(db)@, config@, agent_id@, event_type, event_id@, ts@),
        notifications_view(r@) == synthetic_notices(
            old(db)@,
            config@,
            agent_id@,
            event_type,
            event_id@,
            ts@,
        ),
{
    let mut out: Vec<Notification> = Vec::new();
    assert(notifications_view(out@) =~= Seq::<NotificationView>::empty());
    let mut state = match db.states().get(agent_id) {
        Some(s) => s,
        None => {
            return out;
        },
    };
    let event = NormalizedEvent {
        id: event_id,
        version: String::from_str("1.1"),
        ts: String::from_str(ts),
        event_type,
        source: EventSource::Synthetic,
        workspace_id: state.workspace_id.clone(),
        terminal_session_id: String::from_str("webview"),
        run_id: None,
        session_id: clone_opt(&state.session_id),
        agent_id: String::from_str(agent_id),
        target_agent_id: None,
        task_id: None,
        severity: Severity::Debug,
        payload: value_from_map(map_new()),
        thinking_text: None,
        raw: value_from_map(map_new()),
    };
    let result = on_event(&event, &mut state, config, 0);
    proof {
        lemma_state_has_agent(db@, agent_id@);
        lemma_key_index(state_ids(db@.states), agent_id@);
    }
    let stored = db.upsert_state(&state);
    assert(stored is Ok);
    match result {
        TransitionResult::Changed { prev_status, new_status } => {
            let notice = if new_status == AgentStatus::Offline {
                Notification::AgentDeparted {
                    agent_id: String::from_str(agent_id),
                    ts: String::from_str(ts),
                }
            } else {
                Notification::AgentStatusUpdate {
                    agent_id: String::from_str(agent_id),
                    status: new_status,
                    prev_status,
                    thinking_text: clone_opt(&state.thinking_text),
                    current_task: clone_opt(&state.current_task),
                    workspace_id: state.workspace_id.clone(),
                    peer_agent_id: clone_opt(&state.peer_agent_id),
                    chat_message: None,
                    ts: String::from_str(ts),
                }
            };
            out.push(notice);
            assert(notifications_view(out@) =~= synthetic_notices(
                old(db)@,
                config@,
                agent_id@,
                event_type,
                event.id@,
                ts@,
            ));
        },
        TransitionResult::NoOp => {},
    }
    out
}

/// The store after the display layer has reported the end of an animation. An
/// animation that the status machine does not wait for changes nothing.
pub open spec fn animation_db(
    db: DatabaseView,
    config: StateMachineConfigView,
    agent_id: Seq<char>,
    animation: Seq<char>,
    event_id: Seq<char>,
    ts: Seq<char>,
) -> DatabaseView {
    match animation_event(animation) {
        Some(event_type) => synthetic_db(db, config, agent_id, event_type, event_id, ts),
        None => db,
    }
}

/// What is published after the display layer has reported the end of an
/// animation.
pub open spec fn animation_notices(
    db: DatabaseView,
    config: StateMachineConfigView,
    agent_id: Seq<char>,
    animation: Seq<char>,
    event_id: Seq<char>,
    ts: Seq<char>,
) -> Seq<NotificationView> {
    match animation_event(animation) {
        Some(event_type) => synthetic_notices(db, config, agent_id, event_type, event_id, ts),
        None => Seq::empty(),
    }
}

/// The display layer reports that it has shown an agent appearing,
/// disappearing or starting up. Any other animation is of no concern.
pub fn notify_animation_done(
    db: &mut Database,
    config: &StateMachineConfig,
    agent_id: &str,
    animation: &str,
    event_id: String,
    ts: &str,
) -> (r: Vec<Notification>)
    ensures
        final(db)@ == animation_db(old(db)@, config@, agent_id@, animation@, event_id@, ts@),
        notifications_view(r@) == animation_notices(
            old(db)@,
            config@,
            agent_id@,
            animation@,
            event_id@,
            ts@,
        ),
{
    let event_type = if str_eq(animation, "appear") {
        EventType::AppearDone
    } else if str_eq(animation, "disappear") {
        EventType::DisappearDone
    } else if str_eq(animation, "startled") {
        EventType::StartledDone
    } else {
        let out: Vec<Notification> = Vec::new();
        assert(notifications_view(out@) =~= Seq::<NotificationView>::empty());
        return out;
    };
    process_synthetic_event(db, config, agent_id, event_type, event_id, ts)
}

/// The store after the display layer has reported the end of a movement. A
/// movement that the status machine does not wait for changes nothing.
pub open spec fn movement_db(
    db: DatabaseView,
    config: StateMachineConfigView,
    agent_id: Seq<char>,
    movement_type: Seq<char>,
    event_id: Seq<char>,
    ts: Seq<char>,
) -> DatabaseView {
    match movement_event(movement_type) {
        Some(event_type) => synthetic_db(db, config, agent_id, event_type, event_id, ts),
        None => db,
    }
}

/// What is published after the display layer has reported the end of a
/// movement.
pub open spec fn movement_notices(
    db: DatabaseView,
    config: StateMachineConfigView,
    agent_id: Seq<char>,
    movement_type: Seq<char>,
    event_id: Seq<char>,
    ts: Seq<char>,
) -> Seq<NotificationView> {
    match movement_event(movement_type) {
        Some(event_type) => synthetic_notices(db, config, agent_id, event_type, event_id, ts),
        None => Seq::empty(),
    }
}

/// The display layer reports that an agent has arrived at its peer or at home.
/// Any other movement is of no concern.
pub fn notify_movement_done(
    db: &mut Database,
    config: &StateMachineConfig,
    agent_id: &str,
    movement_type: &str,
    event_id: String,
    ts: &str,
) -> (r: Vec<Notification>)
    ensures
        final(db)@ == movement_db(old(db)@, config@, agent_id@, movement_type@, event_id@, ts@),
        notifications_view(r@) == movement_notices(
            old(db)@,
            config@,
            agent_id@,
            movement_type@,
            event_id@,
            ts@,
        ),
{
    let event_type = if str_eq(movement_type, "arrive_at_peer") {
        EventType::ArriveAtPeer
    } else if str_eq(movement_type, "arrive_at_home") {
        EventType::ArriveAtHome
    } else {
        let out: Vec<Notification> = Vec::new();
        assert(notifications_view(out@) =~= Seq::<NotificationView>::empty());
        return out;
    };
    process_synthetic_event(db, config, agent_id, event_type, event_id, ts)
}

/// The display layer reports that it has shown a chat to its end.
pub fn notify_chat_done(
    db: &mut Database,
    config: &StateMachineConfig,
    agent_id: &str,
    event_id: String,
    ts: &str,
) -> (r: Vec<Notification>)
    ensures
        final(db)@ == synthetic_db(
            old(db)@,
            config@,
            agent_id@,
            EventType::MessageDone,
            event_id@,
            ts@,
        ),
        notifications_view(r@) == synthetic_notices(
            old(db)@,
            config@,
            agent_id@,
            EventType::MessageDone,
            event_id@,
            ts@,
        ),
{
    process_synthetic_event(db, config, agent_id, EventType::MessageDone, event_id, ts)
}

/// An agent as its record describes it, with what its state says it is doing
/// now, where it has a state.
pub open spec fn with_state(
    record: AgentRecordView,
    state: Option<AgentStateView>,
) -> MascotAgentView {
    match state {
        Some(s) => MascotAgentView {
            status: s.status,
            thinking_text: s.thinking_text,
            current_task: s.current_task,
            ..agent_of_record(record)
        },
        None => agent_of_record(record),
    }
}

/// All agents of the registry, each with what it is doing now.
pub fn get_all_agents(db: &Database) -> (r: Vec<MascotAgent>)
    ensures
        r@.len() == db@.agents.len(),
        forall|i: int|
            0 <= i < db@.agents.len() ==> (#[trigger] r@[i])@ == with_state(
                db@.agents[i],
                state_of(db@.states, db@.agents[i].agent_id),
            ),
{
    let agents = db.agents().get_all();
    let mut out: Vec<MascotAgent> = Vec::new();
    let mut i: usize = 0;
    while i < agents.len()
        invariant
            i <= agents@.len(),
            agents@.len() == db@.agents.len(),
            forall|j: int|
                0 <= j < db@.agents.len() ==> (#[trigger] agents@[j])@ == agent_of_record(
                    db@.agents[j],
                ),
            out@.len() == i,
            forall|j: int|
                0 <= j < i ==> (#[trigger] out@[j])@ == with_state(
                    db@.agents[j],
                    state_of(db@.states, db@.agents[j].agent_id),
                ),
        decreases agents@.len() - i,
    {
        let mut agent = agents[i].clone();
        match db.states().get(agent.agent_id.as_str()) {
            Some(state) => {
                agent.status = state.status;
                agent.thinking_text = state.thinking_text;
                agent.current_task = state.current_task;
            },
            None => {},
        }
        out.push(agent);
        i = i + 1;
    }
    out
}

/// The summary of one agent: who it is and what it is doing, its latest
/// events, and how much it has done.
#[derive(Debug)]
pub struct AgentResume {
    pub agent: MascotAgent,
    /// The latest events of the agent, the latest first.
    pub recent_events: Vec<ResumeEvent>,
    pub total_tasks_completed: u64,
    pub total_tools_used: u64,
    /// When the agent was first seen.
    pub first_seen_ts: String,
}

/// What an [`AgentResume`] holds.
pub struct AgentResumeView {
    pub agent: MascotAgentView,
    pub recent_events: Seq<ResumeEventView>,
    pub total_tasks_completed: u64,
    pub total_tools_used: u64,
    pub first_seen_ts: Seq<char>,
}

impl View for AgentResume {
    type V = AgentResumeView;

    open spec fn view(&self) -> AgentResumeView {
        AgentResumeView {
            agent: self.agent@,
            recent_events: resume_view(self.recent_events@),
            total_tasks_completed: self.total_tasks_completed,
            total_tools_used: self.total_tools_used,
            first_seen_ts: self.first_seen_ts@,
        }
    }
}

/// The summary of the agent `agent_id` with at most `limit` events, if the
/// agent is registered: the agent with what it is doing now, its latest events,
/// the number of tasks it has completed and the number of tools it has started.
pub open spec fn resume_spec(db: DatabaseView, agent_id: Seq<char>, limit: usize) -> Option<
    AgentResumeView,
> {
    match agent_record(db.agents, agent_id) {
        Some(record) => Some(
            AgentResumeView {
                agent: with_state(record, state_of(db.states, agent_id)),
                recent_events: recent_events(db.events, agent_id, limit),
                total_tasks_completed: log_count(
                    db.events,
                    agent_id,
                    EventType::TaskCompleted,
                ) as u64,
                total_tools_used: log_count(db.events, agent_id, EventType::ToolStarted) as u64,
                first_seen_ts: record.first_seen_ts,
            },
        ),
        None => None,
    }
}

/// The summary of one agent, with at most `limit` of its latest events. `None`
/// for an agent that is not registered.
pub fn get_agent_resume(db: &Database, agent_id: &str, limit: usize) -> (r: Option<AgentResume>)
    ensures
        match r {
            Some(resume) => resume_spec(db@, agent_id@, limit) == Some(resume@),
            None => resume_spec(db@, agent_id@, limit) is None,
        },
{
    let mut agent = match db.agents().get_by_id(agent_id) {
        Some(a) => a,
        None => {
            return None;
        },
    };
    match db.states().get(agent_id) {
        Some(state) => {
            agent.status = state.status;
            agent.thinking_text = state.thinking_text;
            agent.current_task = state.current_task;
        },
        None => {},
    }
    let recent = db.events().get_recent_by_agent(agent_id, limit);
    let total_tasks_completed = db.events().count_completed_tasks(agent_id);
    let total_tools_used = db.events().count_tools_used(agent_id);
    let first_seen_ts = match db.agents().first_seen(agent_id) {
        Some(ts) => ts,
        None => agent.last_active_ts.clone(),
    };
    Some(
        AgentResume {
            agent,
            recent_events: recent,
            total_tasks_completed,
            total_tools_used,
            first_seen_ts,
        },
    )
}

/// When the display layer reports that it has shown an agent appearing, the
/// agent becomes idle from that time on, and what is published is a change of
/// status: not that the agent has appeared, nor that it has departed.
pub proof fn lemma_appear_done_makes_idle(
    db: DatabaseView,
    config: StateMachineConfigView,
    agent_id: Seq<char>,
    event_id: Seq<char>,
    ts: Seq<char>,
)
    requires
        state_of(db.states, agent_id) matches Some(state) && state.status == AgentStatus::Appearing,
    ensures
        synthetic_after(db, config, agent_id, EventType::AppearDone, event_id, ts) matches Some(
            after,
        ) && after.status == AgentStatus::Idle && after.since == ts,
        synthetic_notices(db, config, agent_id, EventType::AppearDone, event_id, ts).len() == 1,
        synthetic_notices(
            db,
            config,
            agent_id,
            EventType::AppearDone,
            event_id,
            ts,
        )[0] is AgentStatusUpdate,
{
}

} // verus!
