//! The current state of each agent: one row per agent.

use vstd::prelude::*;
use vstd::string::*;
use crate::models::agent::{AgentState, AgentStateView};
use crate::storage::keys::{
    distinct, key_index, lemma_key_index, lemma_key_index_absent, lemma_key_index_found,
};
use crate::text::{clone_opt, str_eq};

verus! {

/// What a list of states holds.
pub open spec fn states_view(rows: Seq<AgentState>) -> Seq<AgentStateView> {
    Seq::new(rows.len(), |i: int| rows[i]@)
}

/// The ids of the agents that have a state, in the order of the rows.
pub open spec fn state_ids(rows: Seq<AgentStateView>) -> Seq<Seq<char>> {
    Seq::new(rows.len(), |i: int| rows[i].agent_id)
}

/// The state of the agent `id`, if it has one.
pub open spec fn state_of(rows: Seq<AgentStateView>, id: Seq<char>) -> Option<AgentStateView> {
    match key_index(state_ids(rows), id) {
        Some(i) => Some(rows[i]),
        None => None,
    }
}

/// The row after `state` has been written over it: everything is taken over
/// but the workspace and the home position, which a row keeps for good.
pub open spec fn overwritten_state(old: AgentStateView, state: AgentStateView) -> AgentStateView {
    AgentStateView { workspace_id: old.workspace_id, home_x_bits: old.home_x_bits, ..state }
}

/// The rows after `state` has been stored: written over the row of its agent
/// where there is one, and added behind the others where there is none.
pub open spec fn states_upsert(rows: Seq<AgentStateView>, state: AgentStateView) -> Seq<
    AgentStateView,
> {
    match key_index(state_ids(rows), state.agent_id) {
        Some(i) => rows.update(i, overwritten_state(rows[i], state)),
        None => rows.push(state),
    }
}

/// The current state of every agent. No agent has two rows.
pub struct StateRepo {
    rows: Vec<AgentState>,
}

impl View for StateRepo {
    type V = Seq<AgentStateView>;

    closed spec fn view(&self) -> Seq<AgentStateView> {
        states_view(self.rows@)
    }
}

impl StateRepo {
    /// What always holds of the rows: no agent has two.
    #[verifier::type_invariant]
    pub open spec fn wf(&self) -> bool {
        distinct(state_ids(self@))
    }

    /// No rows.
    pub fn new() -> (r: Self)
        ensures
            r@ == Seq::<AgentStateView>::empty(),
    {
        let r = StateRepo { rows: Vec::new() };
        assert(r@ =~= Seq::<AgentStateView>::empty());
        r
    }

    /// Where the row of agent `id` stands.
    fn find(&self, id: &str) -> (r: Option<usize>)
        ensures
            match r {
                Some(i) => key_index(state_ids(self@), id@) == Some(i as int) && i
                    < self.rows@.len(),
                None => key_index(state_ids(self@), id@) is None,
            },
    {
        let mut i: usize = 0;
        while i < self.rows.len()
            invariant
                i <= self.rows@.len(),
                forall|j: int| 0 <= j < i ==> state_ids(self@)[j] != id@,
            decreases self.rows@.len() - i,
        {
            if str_eq(self.rows[i].agent_id.as_str(), id) {
                proof {
                    lemma_key_index_found(state_ids(self@), id@, i as int);
                }
                return Some(i);
            }
            i = i + 1;
        }
        proof {
            lemma_key_index_absent(state_ids(self@), id@);
        }
        None
    }

    /// Stores the state of an agent. A first state is added as it is. A later
    /// one replaces the row, except for the workspace and the home position.
    pub fn upsert(&mut self, state: &AgentState)
        ensures
            final(self)@ == states_upsert(old(self)@, state@),
    {
        proof {
            use_type_invariant(&*self);
            lemma_key_index(state_ids(self@), state@.agent_id);
        }
        let ghost before = self@;
        match self.find(state.agent_id.as_str()) {
            Some(i) => {
                let existing = &self.rows[i];
                let row = AgentState {
                    agent_id: state.agent_id.clone(),
                    status: state.status,
                    prev_status: state.prev_status,
                    thinking_text: clone_opt(&state.thinking_text),
                    current_task: clone_opt(&state.current_task),
                    workspace_id: existing.workspace_id.clone(),
                    since: state.since.clone(),
                    last_event_ts: state.last_event_ts.clone(),
                    session_id: clone_opt(&state.session_id),
                    peer_agent_id: clone_opt(&state.peer_agent_id),
                    home_x_bits: existing.home_x_bits,
                };
                let mut rows: Vec<AgentState> = Vec::new();
                std::mem::swap(&mut self.rows, &mut rows);
                rows.set(i, row);
                proof {
                    assert(states_view(rows@) =~= before.update(
                        i as int,
                        overwritten_state(before[i as int], state@),
                    ));
                    assert(state_ids(states_view(rows@)) =~= state_ids(before));
                }
                self.rows = rows;
            },
            None => {
                let row = state.clone();
                let mut rows: Vec<AgentState> = Vec::new();
                std::mem::swap(&mut self.rows, &mut rows);
                rows.push(row);
                proof {
                    assert(states_view(rows@) =~= before.push(state@));
                    assert(state_ids(states_view(rows@)) =~= state_ids(before).push(
                        state@.agent_id,
                    ));
                }
                self.rows = rows;
            },
        }
    }

    /// The state of the agent `id`, if it has one.
    pub fn get(&self, id: &str) -> (r: Option<AgentState>)
        ensures
            match r {
                Some(state) => state_of(self@, id@) == Some(state@),
                None => state_of(self@, id@) is None,
            },
    {
        match self.find(id) {
            Some(i) => Some(self.rows[i].clone()),
            None => None,
        }
    }

    /// The states of all agents, in the order in which they were first stored.
    pub fn get_all(&self) -> (r: Vec<AgentState>)
        ensures
            states_view(r@) == self@,
            distinct(state_ids(self@)),
    {
        proof {
            use_type_invariant(self);
        }
        let mut out: Vec<AgentState> = Vec::new();
        let mut i: usize = 0;
        while i < self.rows.len()
            invariant
                i <= self.rows@.len(),
                out@.len() == i,
                forall|j: int| 0 <= j < i ==> (#[trigger] out@[j])@ == self@[j],
            decreases self.rows@.len() - i,
        {
            out.push(self.rows[i].clone());
            i = i + 1;
        }
        assert(states_view(out@) =~= self@);
        out
    }
}

/// A state that has been stored is the state that is looked up, but for the
/// workspace and the home position, which are those of the first state that
/// was stored for the agent.
pub proof fn lemma_upsert_then_lookup(rows: Seq<AgentStateView>, state: AgentStateView)
    ensures
        state_of(states_upsert(rows, state), state.agent_id) == Some(
            match state_of(rows, state.agent_id) {
                Some(old) => overwritten_state(old, state),
                None => state,
            },
        ),
{
    let ids = state_ids(rows);
    lemma_key_index(ids, state.agent_id);
    let after = state_ids(states_upsert(rows, state));
    match key_index(ids, state.agent_id) {
        Some(i) => {
            assert(after =~= ids);
        },
        None => {
            assert(after =~= ids.push(state.agent_id));
            lemma_key_index_found(after, state.agent_id, ids.len() as int);
        },
    }
}

/// Storing the state of one agent leaves the state of every other agent as it
/// was.
pub proof fn lemma_upsert_keeps_others(
    rows: Seq<AgentStateView>,
    state: AgentStateView,
    other: Seq<char>,
)
    requires
        other != state.agent_id,
    ensures
        state_of(states_upsert(rows, state), other) == state_of(rows, other),
{
    let ids = state_ids(rows);
    lemma_key_index(ids, state.agent_id);
    lemma_key_index(ids, other);
    let after = state_ids(states_upsert(rows, state));
    lemma_key_index(after, other);
    match key_index(ids, state.agent_id) {
        Some(i) => {
            assert(after =~= ids);
        },
        None => {
            assert(after =~= ids.push(state.agent_id));
            match key_index(ids, other) {
                Some(j) => {
                    lemma_key_index_found(after, other, j);
                },
                None => {
                    lemma_key_index_absent(after, other);
                },
            }
        },
    }
}

} // verus!
