//! The timers: agents that have been idle, done or chatting for long enough are
//! moved on, without any event arriving.

use vstd::prelude::*;
use vstd::string::*;
use crate::config::TimerTransitionsConfig;
use crate::models::agent::{AgentState, AgentStateView, AgentStatus};
use crate::models::notification::{notifications_view, Notification, NotificationView};
use crate::storage::db::{
    db_upsert_state, is_registered, references_hold, Database, DatabaseView,
};
use crate::storage::keys::{distinct, key_index, lemma_key_index};
use crate::storage::state_repo::{
    lemma_upsert_keeps_others, lemma_upsert_then_lookup, state_ids, state_of, states_view,
};
use crate::text::clone_opt;

verus! {

/// The instant that an RFC 3339 timestamp names, as `chrono` reads it: the
/// whole seconds since the beginning of 1970 in UTC, and the nanoseconds since
/// the last whole second, which in a leap second run on past one second.
/// `None` if the text is not an RFC 3339 timestamp.
pub uninterp spec fn rfc3339_instant(text: Seq<char>) -> Option<(i64, u32)>;

/// `chrono::DateTime::parse_from_rfc3339`, and of the date and time that it
/// gives, `timestamp` and `timestamp_subsec_nanos`.
#[verifier::external_body]
pub(crate) fn parse_rfc3339(text: &str) -> (r: Option<(i64, u32)>)
    ensures
        r == rfc3339_instant(text@),
{
    match chrono::DateTime::parse_from_rfc3339(text) {
        Ok(parsed) => Some((parsed.timestamp(), parsed.timestamp_subsec_nanos())),
        Err(_) => None,
    }
}

/// The nanoseconds from the instant `earlier` to the instant `later`; negative
/// if `later` is the earlier of the two.
pub open spec fn nanos_between(earlier: (i64, u32), later: (i64, u32)) -> int {
    (later.0 - earlier.0) * 1_000_000_000 + (later.1 - earlier.1)
}

/// The whole seconds that have passed at the instant `later` since the instant
/// `earlier`: none if `earlier` lies in the future, as it does when a clock has
/// been set back; and no more than the result can hold.
pub open spec fn elapsed_secs(earlier: (i64, u32), later: (i64, u32)) -> u64 {
    let nanos = nanos_between(earlier, later);
    if nanos < 0 {
        0
    } else if nanos / 1_000_000_000 > u64::MAX {
        u64::MAX
    } else {
        (nanos / 1_000_000_000) as u64
    }
}

/// The whole seconds that have passed at the instant `later` since the instant
/// `earlier`; zero if `earlier` lies in the future.
pub fn elapsed_between(earlier: (i64, u32), later: (i64, u32)) -> (r: u64)
    ensures
        r == elapsed_secs(earlier, later),
{
    let nanos: i128 = (later.0 as i128 - earlier.0 as i128) * 1_000_000_000 + (later.1 as i128
        - earlier.1 as i128);
    if nanos < 0 {
        0
    } else {
        let secs: i128 = nanos / 1_000_000_000;
        if secs > u64::MAX as i128 {
            u64::MAX
        } else {
            secs as u64
        }
    }
}

/// The seconds that have passed at time `now` since the time `since`, if both
/// are RFC 3339 timestamps.
pub open spec fn elapsed_at(since: Seq<char>, now: Seq<char>) -> Option<u64> {
    match (rfc3339_instant(since), rfc3339_instant(now)) {
        (Some(earlier), Some(later)) => Some(elapsed_secs(earlier, later)),
        _ => None,
    }
}

/// The seconds that have passed at time `now` since the time `since`; zero if
/// `since` lies in the future. `None` if either is not an RFC 3339 timestamp.
pub fn parse_elapsed_secs(since: &str, now: &str) -> (r: Option<u64>)
    ensures
        r == elapsed_at(since@, now@),
{
    match parse_rfc3339(since) {
        Some(earlier) => match parse_rfc3339(now) {
            Some(later) => Some(elapsed_between(earlier, later)),
            None => None,
        },
        None => None,
    }
}

/// The seconds after which a timer moves an agent in status `status`, if there
/// is a timer for that status.
pub open spec fn threshold_of(status: AgentStatus, timers: TimerTransitionsConfig) -> Option<u64> {
    match status {
        AgentStatus::Idle => Some(timers.idle_to_resting_secs),
        AgentStatus::Completed => Some(timers.completed_to_disappear_secs),
        AgentStatus::Chatting => Some(timers.chat_timeout_secs),
        _ => None,
    }
}

/// Where the timer for `status` leads.
pub open spec fn timer_destination(status: AgentStatus) -> AgentStatus {
    match status {
        AgentStatus::Idle => AgentStatus::Resting,
        AgentStatus::Completed => AgentStatus::Disappearing,
        AgentStatus::Chatting => AgentStatus::Returning,
        other => other,
    }
}

/// The status that a timer moves an agent to that has been in `status` for
/// `elapsed` seconds, or `None` if no timer moves it: there is no timer for the
/// status, or the time is not up.
pub open spec fn timer_target(
    status: AgentStatus,
    elapsed: u64,
    timers: TimerTransitionsConfig,
) -> Option<AgentStatus> {
    match threshold_of(status, timers) {
        Some(threshold) => if elapsed >= threshold {
            Some(timer_destination(status))
        } else {
            None
        },
        None => None,
    }
}

/// Decides whether a timer moves an agent, and where to.
pub fn timer_transition(status: AgentStatus, elapsed: u64, timers: &TimerTransitionsConfig) -> (r:
    Option<AgentStatus>)
    ensures
        r == timer_target(status, elapsed, *timers),
{
    match status {
        AgentStatus::Idle => if elapsed >= timers.idle_to_resting_secs {
            Some(AgentStatus::Resting)
        } else {
            None
        },
        AgentStatus::Completed => if elapsed >= timers.completed_to_disappear_secs {
            Some(AgentStatus::Disappearing)
        } else {
            None
        },
        AgentStatus::Chatting => if elapsed >= timers.chat_timeout_secs {
            Some(AgentStatus::Returning)
        } else {
            None
        },
        _ => None,
    }
}

/// The status that the timers move an agent to at time `now`, or `None` if they
/// leave it alone. An agent whose `since` is no timestamp is left alone.
pub open spec fn due_status(
    state: AgentStateView,
    now: Seq<char>,
    timers: TimerTransitionsConfig,
) -> Option<AgentStatus> {
    match elapsed_at(state.since, now) {
        Some(elapsed) => timer_target(state.status, elapsed, timers),
        None => None,
    }
}

/// The state of an agent that a timer has moved to `next` at time `now`.
pub open spec fn moved_by_timer(
    state: AgentStateView,
    next: AgentStatus,
    now: Seq<char>,
) -> AgentStateView {
    AgentStateView { status: next, since: now, last_event_ts: now, ..state }
}

/// What is published when a timer has moved an agent from its status to
/// `next`.
pub open spec fn timer_notice(
    state: AgentStateView,
    next: AgentStatus,
    now: Seq<char>,
) -> NotificationView {
    NotificationView::AgentStatusUpdate {
        agent_id: state.agent_id,
        status: next,
        prev_status: state.status,
        thinking_text: state.thinking_text,
        current_task: state.current_task,
        workspace_id: state.workspace_id,
        peer_agent_id: state.peer_agent_id,
        chat_message: None,
        ts: now,
    }
}

/// The store after the timers have been applied, at time `now`, to the agents
/// whose states are `rows`, one after the other.
pub open spec fn heartbeat_db(
    db: DatabaseView,
    rows: Seq<AgentStateView>,
    now: Seq<char>,
    timers: TimerTransitionsConfig,
) -> DatabaseView
    decreases rows.len(),
{
    if rows.len() == 0 {
        db
    } else {
        let earlier = heartbeat_db(db, rows.drop_last(), now, timers);
        match due_status(rows.last(), now, timers) {
            Some(next) => db_upsert_state(earlier, moved_by_timer(rows.last(), next, now)),
            None => earlier,
        }
    }
}

/// What is published when the timers are applied, at time `now`, to the agents
/// whose states are `rows`: one change of status for each agent that is moved,
/// in the order of the rows.
pub open spec fn heartbeat_notices(
    rows: Seq<AgentStateView>,
    now: Seq<char>,
    timers: TimerTransitionsConfig,
) -> Seq<NotificationView>
    decreases rows.len(),
{
    if rows.len() == 0 {
        Seq::empty()
    } else {
        let earlier = heartbeat_notices(rows.drop_last(), now, timers);
        match due_status(rows.last(), now, timers) {
            Some(next) => earlier.push(timer_notice(rows.last(), next, now)),
            None => earlier,
        }
    }
}

/// One look at the timers, at time `now`. Every agent that has been idle, done
/// or chatting for at least the configured time is moved on, its new status
/// beginning at `now`, and a change of status is published for it. An agent
/// whose `since` cannot be read is skipped; the others are still looked at.
pub fn run_heartbeat(db: &mut Database, timers: &TimerTransitionsConfig, now: &str) -> (r: Vec<
    Notification,
>)
    ensures
        final(db)@ == heartbeat_db(old(db)@, old(db)@.states, now@, *timers),
        notifications_view(r@) == heartbeat_notices(old(db)@.states, now@, *timers),
{
    let agents = db.states().get_all();
    let ghost start = db@;
    let ghost rows = db@.states;
    let mut out: Vec<Notification> = Vec::new();
    let mut i: usize = 0;
    assert(notifications_view(out@) =~= Seq::<NotificationView>::empty());
    while i < agents.len()
        invariant
            i <= agents@.len(),
            states_view(agents@) == rows,
            db@ == heartbeat_db(start, rows.take(i as int), now@, *timers),
            references_hold(start),
            rows == start.states,
            notifications_view(out@) == heartbeat_notices(rows.take(i as int), now@, *timers),
        decreases agents@.len() - i,
    {
        proof {
            assert(rows.take(i + 1).drop_last() =~= rows.take(i as int));
            assert(rows.take(i + 1).last() == agents@[i as int]@);
        }
        let agent = &agents[i];
        let ghost notices = notifications_view(out@);
        match parse_elapsed_secs(agent.since.as_str(), now) {
            Some(elapsed) => match timer_transition(agent.status, elapsed, timers) {
                Some(next) => {
                    let moved = AgentState {
                        agent_id: agent.agent_id.clone(),
                        status: next,
                        prev_status: agent.prev_status,
                        thinking_text: clone_opt(&agent.thinking_text),
                        current_task: clone_opt(&agent.current_task),
                        workspace_id: agent.workspace_id.clone(),
                        since: String::from_str(now),
                        last_event_ts: String::from_str(now),
                        session_id: clone_opt(&agent.session_id),
                        peer_agent_id: clone_opt(&agent.peer_agent_id),
                        home_x_bits: agent.home_x_bits,
                    };
                    proof {
                        lemma_heartbeat_keeps_agents(start, rows.take(i as int), now@, *timers);
                    }
                    let stored = db.upsert_state(&moved);
                    assert(stored is Ok);
                    out.push(
                        Notification::AgentStatusUpdate {
                            agent_id: agent.agent_id.clone(),
                            status: next,
                            prev_status: agent.status,
                            thinking_text: clone_opt(&agent.thinking_text),
                            current_task: clone_opt(&agent.current_task),
                            workspace_id: agent.workspace_id.clone(),
                            peer_agent_id: clone_opt(&agent.peer_agent_id),
                            chat_message: None,
                            ts: String::from_str(now),
                        },
                    );
                    assert(notifications_view(out@) =~= notices.push(
                        timer_notice(agent@, next, now@),
                    ));
                },
                None => {},
            },
            None => {},
        }
        i = i + 1;
    }
    assert(rows.take(rows.len() as int) =~= rows);
    out
}

/// The timers never move an agent before its time is up: an agent that is
/// moved is in a status that has a timer, and has been in it for at least the
/// configured number of seconds.
pub proof fn lemma_timer_waits_for_threshold(
    status: AgentStatus,
    elapsed: u64,
    timers: TimerTransitionsConfig,
)
    ensures
        timer_target(status, elapsed, timers) is Some ==> (threshold_of(
            status,
            timers,
        ) matches Some(threshold) && elapsed >= threshold),
        threshold_of(status, timers) matches Some(threshold) && elapsed < threshold
            ==> timer_target(status, elapsed, timers) is None,
        threshold_of(status, timers) is None ==> timer_target(status, elapsed, timers) is None,
{
}

/// Elapsed time is never negative: from an instant that lies in the future no
/// time has passed, and from any other instant the whole seconds that lie
/// between the two.
pub proof fn lemma_elapsed_is_clamped(earlier: (i64, u32), later: (i64, u32))
    ensures
        nanos_between(earlier, later) < 0 ==> elapsed_secs(earlier, later) == 0,
        nanos_between(earlier, later) >= 0 ==> elapsed_secs(earlier, later) * 1_000_000_000
            <= nanos_between(earlier, later),
        0 <= nanos_between(earlier, later) < (u64::MAX + 1) * 1_000_000_000 ==> nanos_between(
            earlier,
            later,
        ) < (elapsed_secs(earlier, later) + 1) * 1_000_000_000,
{
}

/// An agent whose status began in the future is moved only by a timer that is
/// set to zero seconds.
pub proof fn lemma_future_since_is_not_due(
    state: AgentStateView,
    now: Seq<char>,
    timers: TimerTransitionsConfig,
)
    requires
        rfc3339_instant(state.since) matches Some(earlier) && rfc3339_instant(now) matches Some(
            later,
        ) && nanos_between(earlier, later) < 0,
    ensures
        due_status(state, now, timers) is Some ==> threshold_of(state.status, timers) == Some(
            0u64,
        ),
{
}

/// An agent that has been idle for at least the configured time goes to rest.
pub proof fn lemma_idle_agent_rests(
    state: AgentStateView,
    now: Seq<char>,
    timers: TimerTransitionsConfig,
)
    requires
        state.status == AgentStatus::Idle,
        elapsed_at(state.since, now) matches Some(elapsed) && elapsed
            >= timers.idle_to_resting_secs,
    ensures
        due_status(state, now, timers) == Some(AgentStatus::Resting),
{
}

/// An agent whose `since` cannot be read is left alone by the timers.
pub proof fn lemma_unreadable_since_is_skipped(
    state: AgentStateView,
    now: Seq<char>,
    timers: TimerTransitionsConfig,
)
    requires
        rfc3339_instant(state.since) is None,
    ensures
        due_status(state, now, timers) is None,
{
}

/// The timers register no agent and forget none.
pub proof fn lemma_heartbeat_keeps_agents(
    db: DatabaseView,
    rows: Seq<AgentStateView>,
    now: Seq<char>,
    timers: TimerTransitionsConfig,
)
    ensures
        heartbeat_db(db, rows, now, timers).agents == db.agents,
        heartbeat_db(db, rows, now, timers).events == db.events,
        heartbeat_db(db, rows, now, timers).settings == db.settings,
    decreases rows.len(),
{
    if rows.len() > 0 {
        lemma_heartbeat_keeps_agents(db, rows.drop_last(), now, timers);
    }
}

/// The state of an agent after the timers have been applied to the first `n`
/// rows: moved on if its own row is among them and its time is up, and as it
/// was otherwise.
proof fn lemma_heartbeat_prefix(
    db: DatabaseView,
    n: int,
    now: Seq<char>,
    timers: TimerTransitionsConfig,
    agent_id: Seq<char>,
)
    requires
        references_hold(db),
        distinct(state_ids(db.states)),
        0 <= n <= db.states.len(),
        state_of(db.states, agent_id) is Some,
    ensures
        ({
            let k = key_index(state_ids(db.states), agent_id).unwrap();
            let state = db.states[k];
            state_of(heartbeat_db(db, db.states.take(n), now, timers).states, agent_id) == Some(
                if k < n {
                    after_heartbeat(state, now, timers)
                } else {
                    state
                },
            )
        }),
    decreases n,
{
    let ids = state_ids(db.states);
    lemma_key_index(ids, agent_id);
    let k = key_index(ids, agent_id).unwrap();
    if n == 0 {
        assert(db.states.take(0) =~= Seq::<AgentStateView>::empty());
    } else {
        lemma_heartbeat_prefix(db, n - 1, now, timers, agent_id);
        let rows = db.states.take(n);
        assert(rows.drop_last() =~= db.states.take(n - 1));
        let row = rows.last();
        assert(row == db.states[n - 1]);
        assert(ids[n - 1] == row.agent_id);
        let earlier = heartbeat_db(db, db.states.take(n - 1), now, timers);
        lemma_heartbeat_keeps_agents(db, db.states.take(n - 1), now, timers);
        match due_status(row, now, timers) {
            Some(next) => {
                let moved = moved_by_timer(row, next, now);
                assert(is_registered(db.agents, db.states[n - 1].agent_id));
                if row.agent_id == agent_id {
                    assert(k == n - 1);
                    lemma_upsert_then_lookup(earlier.states, moved);
                } else {
                    lemma_upsert_keeps_others(earlier.states, moved, agent_id);
                }
            },
            None => {},
        }
    }
}

/// The state of an agent after a look at the timers, at time `now`: moved on,
/// its new status beginning at `now`, if its time is up, and as it was if not.
pub open spec fn after_heartbeat(
    state: AgentStateView,
    now: Seq<char>,
    timers: TimerTransitionsConfig,
) -> AgentStateView {
    match due_status(state, now, timers) {
        Some(next) => moved_by_timer(state, next, now),
        None => state,
    }
}

/// A look at the timers moves exactly the agents whose time is up. Every agent
/// that has a state is afterwards in the state that the timers give it: moved
/// on if it has been in a status with a timer for at least the configured
/// time, and unchanged otherwise. In particular an agent whose time is not
/// up is not moved, however many others are.
pub proof fn lemma_heartbeat_moves_due_agents_only(
    db: DatabaseView,
    now: Seq<char>,
    timers: TimerTransitionsConfig,
    agent_id: Seq<char>,
)
    requires
        references_hold(db),
        distinct(state_ids(db.states)),
        state_of(db.states, agent_id) is Some,
    ensures
        state_of(heartbeat_db(db, db.states, now, timers).states, agent_id) == Some(
            after_heartbeat(state_of(db.states, agent_id).unwrap(), now, timers),
        ),
        due_status(state_of(db.states, agent_id).unwrap(), now, timers) is None ==> state_of(
            heartbeat_db(db, db.states, now, timers).states,
            agent_id,
        ) == state_of(db.states, agent_id),
{
    lemma_key_index(state_ids(db.states), agent_id);
    lemma_heartbeat_prefix(db, db.states.len() as int, now, timers, agent_id);
    assert(db.states.take(db.states.len() as int) =~= db.states);
}

} // verus!
