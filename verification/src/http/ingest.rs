//! The ingest pipeline: what happens to one hook payload, from normalization to
//! the notifications that are published for it.

use vstd::prelude::*;
use vstd::string::*;
use serde_json::Value;
use crate::config::{StateMachineConfig, StateMachineConfigView};
use crate::json::{get_str, json_model, str_member, Json};
use crate::models::agent::{
    initial_state, AgentRole, AgentState, AgentStateView, AgentStatus, EmploymentType, MascotAgent,
    MascotAgentView,
};
use crate::models::event::{EventType, EventView, NormalizedEvent};
use crate::models::notification::{
    notifications_view, Notification, NotificationView,
};
use crate::services::normalizer::{
    event_fingerprint, event_fingerprint_spec, lemma_redelivery_has_same_fingerprint,
    member_or_empty, normalize, normalize_spec, payload_agent_id, second_bucket,
};
use crate::services::state_machine::{on_event, on_event_spec, outcome, TransitionResult};
use crate::storage::db::{
    db_insert_event, db_upsert_agent, db_upsert_state, is_registered, lemma_upsert_keeps_registered,
    references_hold, Database, DatabaseView,
};
use crate::storage::events_repo::{
    lemma_log_insert_keeps_wf, lemma_offered_twice_stored_once, log_accepts, log_holds,
    log_insert, log_refuses, log_wf, stored_as, stored_form, StoredEvent, StoredEventView,
};
use crate::storage::keys::{key_index, lemma_key_index};
use crate::storage::state_repo::{
    lemma_upsert_keeps_others, lemma_upsert_then_lookup, state_ids, state_of, states_upsert,
};
use crate::text::{clone_opt, concat, last_segment, last_segment_of, opt_text, owned};

verus! {

/// How a payload was answered.
#[derive(Debug)]
pub enum IngestResponse {
    /// The event was accepted and processed.
    Accepted,
    /// The event was a duplicate of one in the log; nothing was done.
    Duplicate,
    /// The payload could not be normalized; the text says why.
    Rejected(String),
    /// The store failed; the text says how.
    Failed(String),
}

/// What an [`IngestResponse`] holds.
pub enum IngestResponseView {
    Accepted,
    Duplicate,
    Rejected(Seq<char>),
    Failed(Seq<char>),
}

impl View for IngestResponse {
    type V = IngestResponseView;

    open spec fn view(&self) -> IngestResponseView {
        match *self {
            IngestResponse::Accepted => IngestResponseView::Accepted,
            IngestResponse::Duplicate => IngestResponseView::Duplicate,
            IngestResponse::Rejected(text) => IngestResponseView::Rejected(text@),
            IngestResponse::Failed(text) => IngestResponseView::Failed(text@),
        }
    }
}

/// The status code of a response: success for an accepted event and for a
/// duplicate, a client error for a payload that was rejected, a server error
/// for a failure of the store.
pub open spec fn status_code_of(response: IngestResponseView) -> u16 {
    match response {
        IngestResponseView::Accepted => 200,
        IngestResponseView::Duplicate => 200,
        IngestResponseView::Rejected(_) => 400,
        IngestResponseView::Failed(_) => 500,
    }
}

/// The body of a response.
pub open spec fn body_of(response: IngestResponseView) -> Seq<char> {
    match response {
        IngestResponseView::Accepted => "ok"@,
        IngestResponseView::Duplicate => "duplicate, skipped"@,
        IngestResponseView::Rejected(text) => text,
        IngestResponseView::Failed(text) => text,
    }
}

impl IngestResponse {
    /// The status code of the response.
    pub fn status_code(&self) -> (r: u16)
        ensures
            r == status_code_of(self@),
    {
        match self {
            IngestResponse::Accepted => 200,
            IngestResponse::Duplicate => 200,
            IngestResponse::Rejected(_) => 400,
            IngestResponse::Failed(_) => 500,
        }
    }

    /// The body of the response.
    pub fn body(&self) -> (r: String)
        ensures
            r@ == body_of(self@),
    {
        match self {
            IngestResponse::Accepted => String::from_str("ok"),
            IngestResponse::Duplicate => String::from_str("duplicate, skipped"),
            IngestResponse::Rejected(text) => text.clone(),
            IngestResponse::Failed(text) => text.clone(),
        }
    }
}

/// What the pipeline did with a payload: how it answered, what it published,
/// and what it added to the log.
#[derive(Debug)]
pub struct IngestOutcome {
    pub response: IngestResponse,
    pub notifications: Vec<Notification>,
    /// The row that was added to the log, if the event was accepted: for
    /// writing through to where the store is kept.
    pub stored: Option<StoredEvent>,
}

/// What an [`IngestOutcome`] holds.
pub struct IngestOutcomeView {
    pub response: IngestResponseView,
    pub notifications: Seq<NotificationView>,
    pub stored: Option<StoredEventView>,
}

/// What an optional row holds.
pub open spec fn opt_row(row: Option<StoredEvent>) -> Option<StoredEventView> {
    match row {
        Some(r) => Some(r@),
        None => None,
    }
}

impl View for IngestOutcome {
    type V = IngestOutcomeView;

    open spec fn view(&self) -> IngestOutcomeView {
        IngestOutcomeView {
            response: self.response@,
            notifications: notifications_view(self.notifications@),
            stored: opt_row(self.stored),
        }
    }
}

/// The name an agent is shown under: what follows the last slash of its id.
pub open spec fn display_name_of(agent_id: Seq<char>) -> Seq<char> {
    last_segment_of(agent_id, '/')
}

/// The agent that an event is registered as: a contractor in the role of a
/// worker, offline, last active at the time of the event.
pub open spec fn registration_of(event: EventView, appearance: Seq<char>) -> MascotAgentView {
    MascotAgentView {
        agent_id: event.agent_id,
        display_name: display_name_of(event.agent_id),
        role: AgentRole::Worker,
        employment_type: EmploymentType::Contractor,
        workspace_id: event.workspace_id,
        status: AgentStatus::Offline,
        thinking_text: None,
        current_task: None,
        appearance,
        last_active_ts: event.ts,
    }
}

/// The state that the agent of an event starts from when it has none.
pub open spec fn first_state_for(event: EventView) -> AgentStateView {
    initial_state(event.agent_id, event.workspace_id, event.session_id, event.ts)
}

/// The store after the agent of `event` has been seen: the agent is stored in
/// the registry, and an agent that was not registered is given its first state.
pub open spec fn db_register(
    db: DatabaseView,
    event: EventView,
    appearance: Seq<char>,
) -> DatabaseView {
    let registered = db_upsert_agent(db, registration_of(event, appearance));
    if is_registered(db.agents, event.agent_id) {
        registered
    } else {
        db_upsert_state(registered, first_state_for(event))
    }
}

/// The state that `event` is fed to: the stored state of its agent, or the
/// first state where none is stored.
pub open spec fn state_before(db: DatabaseView, event: EventView) -> AgentStateView {
    match state_of(db.states, event.agent_id) {
        Some(state) => state,
        None => first_state_for(event),
    }
}

/// The chat message that an event carries, if it carries one.
pub open spec fn chat_message_of(event: EventView) -> Option<Seq<char>> {
    str_member(event.payload, "message"@)
}

/// Whether a transition brings an agent on stage: the agent is new, or goes
/// from offline to appearing.
pub open spec fn comes_on_stage(is_new: bool, result: TransitionResult) -> bool {
    result matches TransitionResult::Changed { prev_status, new_status } && (is_new || (prev_status
        == AgentStatus::Offline && new_status == AgentStatus::Appearing))
}

/// The notification that an agent has come on stage.
pub open spec fn appeared(
    event: EventView,
    status: AgentStatus,
    appearance: Seq<char>,
) -> NotificationView {
    NotificationView::AgentAppeared {
        agent_id: event.agent_id,
        display_name: display_name_of(event.agent_id),
        role: AgentRole::Worker,
        employment_type: EmploymentType::Contractor,
        workspace_id: event.workspace_id,
        status,
        appearance,
        ts: event.ts,
    }
}

/// The notification that closes a transition to `new_status`: the agent has
/// departed if it is now offline, and has changed status otherwise.
pub open spec fn change_notice(
    agent_id: Seq<char>,
    workspace_id: Seq<char>,
    ts: Seq<char>,
    prev_status: AgentStatus,
    new_status: AgentStatus,
    after: AgentStateView,
    chat_message: Option<Seq<char>>,
) -> NotificationView {
    if new_status == AgentStatus::Offline {
        NotificationView::AgentDeparted { agent_id, ts }
    } else {
        NotificationView::AgentStatusUpdate {
            agent_id,
            status: new_status,
            prev_status,
            thinking_text: after.thinking_text,
            current_task: after.current_task,
            workspace_id,
            peer_agent_id: after.peer_agent_id,
            chat_message,
            ts,
        }
    }
}

/// What is published for an event. Nothing, when the machine reported a no-op.
/// For a transition, one message: that the agent has appeared, if the
/// transition brings it on stage; else that it has departed, if it is now
/// offline; else that it has changed status.
pub open spec fn notifications_for(
    result: TransitionResult,
    is_new: bool,
    event: EventView,
    after: AgentStateView,
    appearance: Seq<char>,
) -> Seq<NotificationView> {
    match result {
        TransitionResult::NoOp => Seq::empty(),
        TransitionResult::Changed { prev_status, new_status } => {
            if comes_on_stage(is_new, result) {
                seq![appeared(event, new_status, appearance)]
            } else {
                seq![
                    change_notice(
                        event.agent_id,
                        event.workspace_id,
                        event.ts,
                        prev_status,
                        new_status,
                        after,
                        chat_message_of(event),
                    ),
                ]
            }
        },
    }
}

/// The text that the store's refusal of an event is answered with.
pub open spec fn storage_failure_text() -> Seq<char> {
    "storage error: database error: UNIQUE constraint failed: events.id"@
}

/// The store after `event` has gone through the pipeline under `fingerprint`.
/// A duplicate leaves the store as it is, and so does an event that the log
/// refuses. Otherwise the event is in the log, its agent is registered, and the
/// state of the agent is what the status machine made of it.
pub open spec fn ingest_db(
    db: DatabaseView,
    config: StateMachineConfigView,
    event: EventView,
    fingerprint: Seq<char>,
    appearance: Seq<char>,
    consecutive_failures: u32,
) -> DatabaseView {
    if !log_accepts(db.events, event.id, fingerprint) {
        db
    } else {
        let logged = db_insert_event(db, event, fingerprint);
        let registered = db_register(logged, event, appearance);
        let after = on_event_spec(
            state_before(registered, event),
            event,
            config,
            consecutive_failures,
        );
        db_upsert_state(registered, after)
    }
}

/// What the pipeline answers and publishes for `event` under `fingerprint`. A
/// duplicate is answered as such, and an event that the log refuses as a
/// failure of the store; neither publishes anything. Any other event is
/// accepted.
pub open spec fn ingest_outcome(
    db: DatabaseView,
    config: StateMachineConfigView,
    event: EventView,
    fingerprint: Seq<char>,
    appearance: Seq<char>,
    consecutive_failures: u32,
) -> IngestOutcomeView {
    if log_holds(db.events, fingerprint) {
        IngestOutcomeView {
            response: IngestResponseView::Duplicate,
            notifications: Seq::empty(),
            stored: None,
        }
    } else if log_refuses(db.events, event.id, fingerprint) {
        IngestOutcomeView {
            response: IngestResponseView::Failed(storage_failure_text()),
            notifications: Seq::empty(),
            stored: None,
        }
    } else {
        let logged = db_insert_event(db, event, fingerprint);
        let registered = db_register(logged, event, appearance);
        let before = state_before(registered, event);
        IngestOutcomeView {
            response: IngestResponseView::Accepted,
            notifications: notifications_for(
                outcome(before, event, config, consecutive_failures),
                !is_registered(db.agents, event.agent_id),
                event,
                on_event_spec(before, event, config, consecutive_failures),
                appearance,
            ),
            stored: Some(stored_as(event, fingerprint)),
        }
    }
}

/// The chat message that an event carries, if it carries one.
fn extract_chat_message(event: &NormalizedEvent) -> (r: Option<String>)
    ensures
        opt_text(r) == chat_message_of(event@),
{
    owned(get_str(&event.payload, "message"))
}

/// Sees to it that the agent of `event` is registered. The agent is stored in
/// the registry: added if it is new, refreshed if it is not. A new agent is
/// given its first state. Says whether the agent is new.
pub fn ensure_agent_registered(
    db: &mut Database,
    event: &NormalizedEvent,
    appearance: &str,
) -> (is_new: bool)
    ensures
        is_new == !is_registered(old(db)@.agents, event@.agent_id),
        final(db)@ == db_register(old(db)@, event@, appearance@),
        is_registered(final(db)@.agents, event@.agent_id),
{
    let is_new = db.agents().get_by_id(event.agent_id.as_str()).is_none();
    let agent = MascotAgent {
        agent_id: event.agent_id.clone(),
        display_name: String::from_str(last_segment(event.agent_id.as_str(), '/')),
        role: AgentRole::Worker,
        employment_type: EmploymentType::Contractor,
        workspace_id: event.workspace_id.clone(),
        status: AgentStatus::Offline,
        thinking_text: None,
        current_task: None,
        appearance: String::from_str(appearance),
        last_active_ts: event.ts.clone(),
    };
    proof {
        lemma_upsert_keeps_registered(db@.agents, agent@, event@.agent_id);
    }
    db.upsert_agent(&agent);
    if is_new {
        let first = AgentState::initial(
            event.agent_id.as_str(),
            event.workspace_id.as_str(),
            match &event.session_id {
                Some(s) => Some(s.as_str()),
                None => None,
            },
            event.ts.as_str(),
        );
        let stored = db.upsert_state(&first);
        assert(stored is Ok);
    }
    is_new
}

/// The notification that closes a transition.
fn make_change_notice(
    agent_id: &str,
    workspace_id: &str,
    ts: &str,
    prev_status: AgentStatus,
    new_status: AgentStatus,
    after: &AgentState,
    chat_message: Option<String>,
) -> (r: Notification)
    ensures
        r@ == change_notice(
            agent_id@,
            workspace_id@,
            ts@,
            prev_status,
            new_status,
            after@,
            opt_text(chat_message),
        ),
{
    if new_status == AgentStatus::Offline {
        Notification::AgentDeparted {
            agent_id: String::from_str(agent_id),
            ts: String::from_str(ts),
        }
    } else {
        Notification::AgentStatusUpdate {
            agent_id: String::from_str(agent_id),
            status: new_status,
            prev_status,
            thinking_text: clone_opt(&after.thinking_text),
            current_task: clone_opt(&after.current_task),
            workspace_id: String::from_str(workspace_id),
            peer_agent_id: clone_opt(&after.peer_agent_id),
            chat_message,
            ts: String::from_str(ts),
        }
    }
}

/// What is published for an event.
fn make_notifications(
    result: TransitionResult,
    is_new: bool,
    event: &NormalizedEvent,
    after: &AgentState,
    appearance: &str,
) -> (r: Vec<Notification>)
    ensures
        notifications_view(r@) == notifications_for(result, is_new, event@, after@, appearance@),
{
    let mut out: Vec<Notification> = Vec::new();
    match result {
        TransitionResult::NoOp => {
            assert(notifications_view(out@) =~= Seq::<NotificationView>::empty());
        },
        TransitionResult::Changed { prev_status, new_status } => {
            let comes = is_new || (prev_status == AgentStatus::Offline && new_status
                == AgentStatus::Appearing);
            if comes {
                out.push(
                    Notification::AgentAppeared {
                        agent_id: event.agent_id.clone(),
                        display_name: String::from_str(
                            last_segment(event.agent_id.as_str(), '/'),
                        ),
                        role: AgentRole::Worker,
                        employment_type: EmploymentType::Contractor,
                        workspace_id: event.workspace_id.clone(),
                        status: new_status,
                        appearance: String::from_str(appearance),
                        ts: event.ts.clone(),
                    },
                );
            } else {
                out.push(
                    make_change_notice(
                        event.agent_id.as_str(),
                        event.workspace_id.as_str(),
                        event.ts.as_str(),
                        prev_status,
                        new_status,
                        after,
                        extract_chat_message(event),
                    ),
                );
            }
            assert(notifications_view(out@) =~= notifications_for(
                result,
                is_new,
                event@,
                after@,
                appearance@,
            ));
        },
    }
    out
}

/// Takes a canonical event through the pipeline: into the log, unless it is a
/// duplicate or the log refuses it; then registration of its agent, the status
/// machine, the store, and the notification, of which there is at most one.
///
/// `appearance` is the cosmetic profile of the agent of the event, in its
/// serialized form. `consecutive_failures` is the number of tool failures in a
/// row that the caller has counted for the agent; the pipeline keeps no such
/// count itself.
pub fn ingest_event(
    db: &mut Database,
    config: &StateMachineConfig,
    event: &NormalizedEvent,
    fingerprint: &str,
    appearance: &str,
    consecutive_failures: u32,
) -> (r: IngestOutcome)
    ensures
        final(db)@ == ingest_db(
            old(db)@,
            config@,
            event@,
            fingerprint@,
            appearance@,
            consecutive_failures,
        ),
        r@ == ingest_outcome(
            old(db)@,
            config@,
            event@,
            fingerprint@,
            appearance@,
            consecutive_failures,
        ),
{
    match db.insert_event(event, fingerprint) {
        Ok(true) => {},
        Ok(false) => {
            let r = IngestOutcome {
                response: IngestResponse::Duplicate,
                notifications: Vec::new(),
                stored: None,
            };
            assert(r@.notifications =~= Seq::<NotificationView>::empty());
            return r;
        },
        Err(e) => {
            let detail = e.message();
            proof {
                reveal_strlit("storage error: ");
                reveal_strlit("database error: ");
                reveal_strlit("UNIQUE constraint failed: events.id");
                reveal_strlit("storage error: database error: UNIQUE constraint failed: events.id");
            }
            let text = concat("storage error: ", detail.as_str());
            assert(text@ =~= storage_failure_text());
            let r = IngestOutcome {
                response: IngestResponse::Failed(text),
                notifications: Vec::new(),
                stored: None,
            };
            assert(r@.notifications =~= Seq::<NotificationView>::empty());
            return r;
        },
    }
    let is_new = ensure_agent_registered(db, event, appearance);
    proof {
        lemma_key_index(state_ids(db@.states), event@.agent_id);
    }
    let mut state = match db.states().get(event.agent_id.as_str()) {
        Some(s) => s,
        None => AgentState::initial(
            event.agent_id.as_str(),
            event.workspace_id.as_str(),
            match &event.session_id {
                Some(s) => Some(s.as_str()),
                None => None,
            },
            event.ts.as_str(),
        ),
    };
    let result = on_event(event, &mut state, config, consecutive_failures);
    let stored = db.upsert_state(&state);
    assert(stored is Ok);
    let notifications = make_notifications(result, is_new, event, &state, appearance);
    IngestOutcome {
        response: IngestResponse::Accepted,
        notifications,
        stored: Some(stored_form(event, fingerprint)),
    }
}

/// The text that a payload is rejected with when normalization fails for
/// `reason`: the message of the normalization error, announced as such.
pub open spec fn rejection_text(reason: Seq<char>) -> Seq<char> {
    "normalization failed: "@ + ("normalization failed: "@ + reason)
}

/// What the pipeline does with the payload `raw`: the store afterwards.
pub open spec fn handle_db(
    db: DatabaseView,
    config: StateMachineConfigView,
    raw: Json,
    event_id: Seq<char>,
    received_at: Seq<char>,
    appearance: Seq<char>,
    consecutive_failures: u32,
) -> DatabaseView {
    match normalize_spec(raw, event_id, received_at) {
        Err(_) => db,
        Ok(event) => ingest_db(
            db,
            config,
            event,
            event_fingerprint_spec(event),
            appearance,
            consecutive_failures,
        ),
    }
}

/// What the pipeline does with the payload `raw`: its answer, what it
/// publishes and what it adds to the log.
pub open spec fn handle_outcome(
    db: DatabaseView,
    config: StateMachineConfigView,
    raw: Json,
    event_id: Seq<char>,
    received_at: Seq<char>,
    appearance: Seq<char>,
    consecutive_failures: u32,
) -> IngestOutcomeView {
    match normalize_spec(raw, event_id, received_at) {
        Err(reason) => IngestOutcomeView {
            response: IngestResponseView::Rejected(rejection_text(reason)),
            notifications: Seq::empty(),
            stored: None,
        },
        Ok(event) => ingest_outcome(
            db,
            config,
            event,
            event_fingerprint_spec(event),
            appearance,
            consecutive_failures,
        ),
    }
}

/// Handles one hook payload: normalizes it, and takes the event through the
/// pipeline. A payload that cannot be normalized is rejected and leaves the
/// store as it is.
///
/// `event_id` is the id that the event is to have, `received_at` the time it
/// takes when the payload does not say when it was collected. `appearance` and
/// `consecutive_failures` are as for [`ingest_event`].
pub fn ingest_handler(
    db: &mut Database,
    config: &StateMachineConfig,
    payload: &Value,
    event_id: String,
    received_at: &str,
    appearance: &str,
    consecutive_failures: u32,
) -> (r: IngestOutcome)
    ensures
        final(db)@ == handle_db(
            old(db)@,
            config@,
            json_model(*payload),
            event_id@,
            received_at@,
            appearance@,
            consecutive_failures,
        ),
        r@ == handle_outcome(
            old(db)@,
            config@,
            json_model(*payload),
            event_id@,
            received_at@,
            appearance@,
            consecutive_failures,
        ),
{
    let event = match normalize(payload, event_id, received_at) {
        Ok(event) => event,
        Err(e) => {
            let detail = e.message();
            let r = IngestOutcome {
                response: IngestResponse::Rejected(
                    concat("normalization failed: ", detail.as_str()),
                ),
                notifications: Vec::new(),
                stored: None,
            };
            assert(r@.notifications =~= Seq::<NotificationView>::empty());
            return r;
        },
    };
    let fingerprint = event_fingerprint(&event);
    ingest_event(db, config, &event, fingerprint.as_str(), appearance, consecutive_failures)
}

/// An event that the log refuses, because the log holds another event with its
/// id, is answered as a failure of the store; it publishes nothing and leaves
/// the store as it is.
pub proof fn lemma_refused_event_changes_nothing(
    db: DatabaseView,
    config: StateMachineConfigView,
    event: EventView,
    fingerprint: Seq<char>,
    appearance: Seq<char>,
    consecutive_failures: u32,
)
    requires
        log_refuses(db.events, event.id, fingerprint),
    ensures
        ingest_db(db, config, event, fingerprint, appearance, consecutive_failures) == db,
        ingest_outcome(
            db,
            config,
            event,
            fingerprint,
            appearance,
            consecutive_failures,
        ).response is Failed,
        ingest_outcome(
            db,
            config,
            event,
            fingerprint,
            appearance,
            consecutive_failures,
        ).notifications.len() == 0,
{
}

/// Submitting one logical event twice stores it once and publishes for it at
/// most once. Once an event has been offered under a fingerprint and the store
/// has not failed, a second event under the same fingerprint is answered as a
/// duplicate, whatever its id; it publishes nothing and leaves the store as
/// the first left it. The log then holds the fingerprint exactly once. If it
/// did not hold it before, the log is one row longer than before, the row
/// being the first event as it was submitted; and the two submissions together
/// publish at most one message.
pub proof fn lemma_ingest_is_idempotent(
    db: DatabaseView,
    config: StateMachineConfigView,
    first: EventView,
    second: EventView,
    fingerprint: Seq<char>,
    appearance: Seq<char>,
    consecutive_failures: u32,
)
    requires
        log_wf(db.events),
        !log_refuses(db.events, first.id, fingerprint),
    ensures
        ({
            let once = ingest_db(db, config, first, fingerprint, appearance, consecutive_failures);
            let twice = ingest_db(
                once,
                config,
                second,
                fingerprint,
                appearance,
                consecutive_failures,
            );
            let first_outcome = ingest_outcome(
                db,
                config,
                first,
                fingerprint,
                appearance,
                consecutive_failures,
            );
            let second_outcome = ingest_outcome(
                once,
                config,
                second,
                fingerprint,
                appearance,
                consecutive_failures,
            );
            &&& twice == once
            &&& !(first_outcome.response is Failed)
            &&& second_outcome.response == IngestResponseView::Duplicate
            &&& second_outcome.notifications.len() == 0
            &&& second_outcome.stored is None
            &&& log_holds(twice.events, fingerprint)
            &&& log_wf(twice.events)
            &&& !log_holds(db.events, fingerprint) ==> twice.events == db.events.push(
                stored_as(first, fingerprint),
            )
            &&& log_holds(db.events, fingerprint) ==> twice.events == db.events
            &&& first_outcome.notifications.len() + second_outcome.notifications.len() <= 1
        }),
{
    let once = ingest_db(db, config, first, fingerprint, appearance, consecutive_failures);
    assert(once.events == log_insert(db.events, first, fingerprint));
    lemma_offered_twice_stored_once(db.events, first, second, fingerprint);
    lemma_log_insert_keeps_wf(db.events, first, fingerprint);
    let second_outcome = ingest_outcome(
        once,
        config,
        second,
        fingerprint,
        appearance,
        consecutive_failures,
    );
    assert(second_outcome.notifications =~= Seq::<NotificationView>::empty());
}

/// A payload that is delivered again is recognized. Handling a payload once
/// more after it has been handled without a failure of the store is answered
/// as a duplicate (or rejected again, if it cannot be normalized), under
/// whatever id; it publishes nothing and leaves the store as it was after the
/// first time. So the two deliveries together publish at most one message,
/// and add one row to the log if the log did not hold the event, and none if
/// it did. This holds for a payload that says when it was collected, and for
/// any payload delivered again within the second in which it was first
/// received.
pub proof fn lemma_redelivery_is_ignored(
    db: DatabaseView,
    config: StateMachineConfigView,
    raw: Json,
    first_id: Seq<char>,
    second_id: Seq<char>,
    first_received: Seq<char>,
    second_received: Seq<char>,
    appearance: Seq<char>,
    consecutive_failures: u32,
)
    requires
        log_wf(db.events),
        !(handle_outcome(
            db,
            config,
            raw,
            first_id,
            first_received,
            appearance,
            consecutive_failures,
        ).response is Failed),
        str_member(member_or_empty(raw, "_meta"@), "collected_at"@) is Some || second_bucket(
            first_received,
        ) == second_bucket(second_received),
    ensures
        ({
            let once = handle_db(
                db,
                config,
                raw,
                first_id,
                first_received,
                appearance,
                consecutive_failures,
            );
            let twice = handle_db(
                once,
                config,
                raw,
                second_id,
                second_received,
                appearance,
                consecutive_failures,
            );
            let first_outcome = handle_outcome(
                db,
                config,
                raw,
                first_id,
                first_received,
                appearance,
                consecutive_failures,
            );
            let second_outcome = handle_outcome(
                once,
                config,
                raw,
                second_id,
                second_received,
                appearance,
                consecutive_failures,
            );
            &&& twice == once
            &&& second_outcome.notifications.len() == 0
            &&& !(second_outcome.response is Accepted)
            &&& first_outcome.notifications.len() + second_outcome.notifications.len() <= 1
            &&& normalize_spec(raw, first_id, first_received) matches Ok(event) ==> {
                let fingerprint = event_fingerprint_spec(event);
                &&& second_outcome.response == IngestResponseView::Duplicate
                &&& log_holds(twice.events, fingerprint)
                &&& log_wf(twice.events)
                &&& !log_holds(db.events, fingerprint) ==> twice.events.len() == db.events.len()
                    + 1
            }
        }),
{
    match normalize_spec(raw, first_id, first_received) {
        Err(_) => {},
        Ok(first) => {
            lemma_redelivery_has_same_fingerprint(
                raw,
                first_id,
                second_id,
                first_received,
                second_received,
            );
            let second = normalize_spec(raw, second_id, second_received)->Ok_0;
            lemma_ingest_is_idempotent(
                db,
                config,
                first,
                second,
                event_fingerprint_spec(first),
                appearance,
                consecutive_failures,
            );
        },
    }
}

/// The pipeline keeps every state with an agent: if every state in the store
/// belongs to a registered agent, that is so afterwards too.
pub proof fn lemma_ingest_keeps_references(
    db: DatabaseView,
    config: StateMachineConfigView,
    event: EventView,
    fingerprint: Seq<char>,
    appearance: Seq<char>,
    consecutive_failures: u32,
)
    requires
        references_hold(db),
    ensures
        references_hold(
            ingest_db(db, config, event, fingerprint, appearance, consecutive_failures),
        ),
        log_accepts(db.events, event.id, fingerprint) ==> is_registered(
            ingest_db(db, config, event, fingerprint, appearance, consecutive_failures).agents,
            event.agent_id,
        ),
{
    if log_accepts(db.events, event.id, fingerprint) {
        let logged = db_insert_event(db, event, fingerprint);
        let agent = registration_of(event, appearance);
        let with_agent = db_upsert_agent(logged, agent);
        assert forall|i: int| 0 <= i < with_agent.states.len() implies is_registered(
            with_agent.agents,
            #[trigger] with_agent.states[i].agent_id,
        ) by {
            lemma_upsert_keeps_registered(logged.agents, agent, logged.states[i].agent_id);
        }
        lemma_upsert_keeps_registered(logged.agents, agent, event.agent_id);
        let registered = db_register(logged, event, appearance);
        lemma_state_upsert_keeps_references(with_agent, first_state_for(event));
        let before = state_before(registered, event);
        lemma_key_index(state_ids(registered.states), event.agent_id);
        let after = on_event_spec(before, event, config, consecutive_failures);
        lemma_state_upsert_keeps_references(registered, after);
    }
}

/// Offering a state to the store keeps every state with an agent.
pub proof fn lemma_state_upsert_keeps_references(db: DatabaseView, state: AgentStateView)
    requires
        references_hold(db),
    ensures
        references_hold(db_upsert_state(db, state)),
{
    if is_registered(db.agents, state.agent_id) {
        lemma_key_index(state_ids(db.states), state.agent_id);
        let after = states_upsert(db.states, state);
        assert forall|i: int| 0 <= i < after.len() implies is_registered(
            db.agents,
            #[trigger] after[i].agent_id,
        ) by {
            if i < db.states.len() {
                assert(is_registered(db.agents, db.states[i].agent_id));
            }
        }
    }
}

/// The first event of an agent that the registry does not know registers the
/// agent and gives it a state. If that event says that the agent has started,
/// and the log takes it, the event is accepted, the agent goes from offline to
/// appearing at the time of the event, and one message is published: that the
/// agent has appeared.
pub proof fn lemma_unseen_agent_appears(
    db: DatabaseView,
    config: StateMachineConfigView,
    event: EventView,
    fingerprint: Seq<char>,
    appearance: Seq<char>,
    consecutive_failures: u32,
)
    requires
        references_hold(db),
        log_accepts(db.events, event.id, fingerprint),
        !is_registered(db.agents, event.agent_id),
        event.event_type == EventType::AgentStarted,
    ensures
        ({
            let after = ingest_db(db, config, event, fingerprint, appearance, consecutive_failures);
            let done = ingest_outcome(
                db,
                config,
                event,
                fingerprint,
                appearance,
                consecutive_failures,
            );
            &&& done.response == IngestResponseView::Accepted
            &&& is_registered(after.agents, event.agent_id)
            &&& state_of(after.states, event.agent_id) matches Some(state) && state.status
                == AgentStatus::Appearing && state.since == event.ts && state.last_event_ts
                == event.ts
            &&& done.notifications == seq![appeared(event, AgentStatus::Appearing, appearance)]
        }),
{
    let logged = db_insert_event(db, event, fingerprint);
    let agent = registration_of(event, appearance);
    let with_agent = db_upsert_agent(logged, agent);
    lemma_upsert_keeps_registered(logged.agents, agent, event.agent_id);
    // an agent that is not registered has no state
    lemma_key_index(state_ids(db.states), event.agent_id);
    assert(state_of(db.states, event.agent_id) is None) by {
        if key_index(state_ids(db.states), event.agent_id) is Some {
            let i = key_index(state_ids(db.states), event.agent_id).unwrap();
            assert(is_registered(db.agents, db.states[i].agent_id));
        }
    }
    let first = first_state_for(event);
    let registered = db_register(logged, event, appearance);
    lemma_upsert_then_lookup(with_agent.states, first);
    assert(state_before(registered, event) == first);
    let after = on_event_spec(first, event, config, consecutive_failures);
    lemma_upsert_then_lookup(registered.states, after);
}

/// A payload that says that an agent has started, for an agent that the
/// registry does not know and an event that the log takes, is accepted; the
/// agent is then registered and appearing, since the time of the event; and
/// the one message that is published says that the agent has appeared, under
/// the name that follows the last slash of its id.
pub proof fn lemma_start_of_unseen_agent(
    db: DatabaseView,
    config: StateMachineConfigView,
    raw: Json,
    event_id: Seq<char>,
    received_at: Seq<char>,
    appearance: Seq<char>,
    consecutive_failures: u32,
)
    requires
        references_hold(db),
        normalize_spec(raw, event_id, received_at) matches Ok(event) && event.event_type
            == EventType::AgentStarted && !is_registered(db.agents, event.agent_id) && log_accepts(
            db.events,
            event_id,
            event_fingerprint_spec(event),
        ),
    ensures
        ({
            let event = normalize_spec(raw, event_id, received_at)->Ok_0;
            let after = handle_db(
                db,
                config,
                raw,
                event_id,
                received_at,
                appearance,
                consecutive_failures,
            );
            let done = handle_outcome(
                db,
                config,
                raw,
                event_id,
                received_at,
                appearance,
                consecutive_failures,
            );
            &&& done.response == IngestResponseView::Accepted
            &&& event.agent_id == payload_agent_id(raw)
            &&& is_registered(after.agents, event.agent_id)
            &&& state_of(after.states, event.agent_id) matches Some(state) && state.status
                == AgentStatus::Appearing && state.since == event.ts && state.last_event_ts
                == event.ts
            &&& done.notifications == seq![
                NotificationView::AgentAppeared {
                    agent_id: event.agent_id,
                    display_name: display_name_of(event.agent_id),
                    role: AgentRole::Worker,
                    employment_type: EmploymentType::Contractor,
                    workspace_id: event.workspace_id,
                    status: AgentStatus::Appearing,
                    appearance,
                    ts: event.ts,
                },
            ]
        }),
{
    let event = normalize_spec(raw, event_id, received_at)->Ok_0;
    lemma_unseen_agent_appears(
        db,
        config,
        event,
        event_fingerprint_spec(event),
        appearance,
        consecutive_failures,
    );
}

/// An event changes the state of no agent but its own.
pub proof fn lemma_ingest_touches_one_agent(
    db: DatabaseView,
    config: StateMachineConfigView,
    event: EventView,
    fingerprint: Seq<char>,
    appearance: Seq<char>,
    consecutive_failures: u32,
    other: Seq<char>,
)
    requires
        other != event.agent_id,
    ensures
        state_of(
            ingest_db(db, config, event, fingerprint, appearance, consecutive_failures).states,
            other,
        ) == state_of(db.states, other),
{
    if log_accepts(db.events, event.id, fingerprint) {
        let logged = db_insert_event(db, event, fingerprint);
        let with_agent = db_upsert_agent(logged, registration_of(event, appearance));
        let registered = db_register(logged, event, appearance);
        lemma_upsert_keeps_others(with_agent.states, first_state_for(event), other);
        let before = state_before(registered, event);
        lemma_key_index(state_ids(registered.states), event.agent_id);
        let after = on_event_spec(before, event, config, consecutive_failures);
        lemma_upsert_keeps_others(registered.states, after, other);
    }
}

} // verus!
