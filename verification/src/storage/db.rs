//! The store: the three relations and the settings, held together.
//!
//! Every state belongs to an agent of the registry. The store keeps that true
//! by refusing a state whose agent the registry does not know.

use vstd::prelude::*;
use vstd::string::*;
use crate::error::AppError;
use crate::models::agent::{AgentState, AgentStateView, MascotAgent, MascotAgentView};
use crate::models::event::{EventView, NormalizedEvent};
use crate::storage::agents_repo::{
    agent_ids, agents_restore, agents_upsert, AgentRecord, AgentRecordView, AgentsRepo,
};
use crate::storage::events_repo::{
    is_id_conflict, log_accepts, log_holds, log_insert, log_refuses, log_wf, EventsRepo,
    StoredEventView,
};
use crate::storage::keys::{key_index, lemma_key_index, lemma_key_index_found};
use crate::storage::settings_repo::{settings_delete, settings_set, setting_value, SettingsRepo};
use crate::storage::state_repo::{state_ids, state_of, states_upsert, StateRepo};

verus! {

/// What the store holds.
pub struct DatabaseView {
    pub agents: Seq<AgentRecordView>,
    pub states: Seq<AgentStateView>,
    pub events: Seq<StoredEventView>,
    pub settings: Seq<(Seq<char>, Seq<char>)>,
}

/// The store that holds nothing.
pub open spec fn empty_store() -> DatabaseView {
    DatabaseView {
        agents: Seq::empty(),
        states: Seq::empty(),
        events: Seq::empty(),
        settings: Seq::empty(),
    }
}

/// Whether the registry knows the agent `id`.
pub open spec fn is_registered(agents: Seq<AgentRecordView>, id: Seq<char>) -> bool {
    key_index(agent_ids(agents), id) is Some
}

/// Whether every state belongs to an agent of the registry.
pub open spec fn references_hold(db: DatabaseView) -> bool {
    forall|i: int|
        0 <= i < db.states.len() ==> is_registered(db.agents, #[trigger] db.states[i].agent_id)
}

/// The store after `agent` has been stored in the registry.
pub open spec fn db_upsert_agent(db: DatabaseView, agent: MascotAgentView) -> DatabaseView {
    DatabaseView { agents: agents_upsert(db.agents, agent), ..db }
}

/// The store after `state` has been offered: stored if its agent is
/// registered, and the store as it was if not.
pub open spec fn db_upsert_state(db: DatabaseView, state: AgentStateView) -> DatabaseView {
    if is_registered(db.agents, state.agent_id) {
        DatabaseView { states: states_upsert(db.states, state), ..db }
    } else {
        db
    }
}

/// The store after `event` has been offered to the log under `fingerprint`.
pub open spec fn db_insert_event(
    db: DatabaseView,
    event: EventView,
    fingerprint: Seq<char>,
) -> DatabaseView {
    DatabaseView { events: log_insert(db.events, event, fingerprint), ..db }
}

/// Whether `e` says that a state was refused because its agent is not
/// registered.
pub open spec fn is_reference_failure(e: AppError) -> bool {
    e matches AppError::Database(detail) && detail@ == "FOREIGN KEY constraint failed"@
}

/// Storing an agent keeps every agent that was registered, and registers the
/// one that is stored.
pub proof fn lemma_upsert_keeps_registered(
    agents: Seq<AgentRecordView>,
    agent: MascotAgentView,
    id: Seq<char>,
)
    ensures
        is_registered(agents, id) ==> is_registered(agents_upsert(agents, agent), id),
        is_registered(agents_upsert(agents, agent), agent.agent_id),
        agent_ids(agents_upsert(agents, agent)) == match key_index(
            agent_ids(agents),
            agent.agent_id,
        ) {
            Some(i) => agent_ids(agents),
            None => agent_ids(agents).push(agent.agent_id),
        },
{
    let ids = agent_ids(agents);
    let after = agent_ids(agents_upsert(agents, agent));
    lemma_key_index(ids, agent.agent_id);
    lemma_key_index(ids, id);
    match key_index(ids, agent.agent_id) {
        Some(i) => {
            assert(after =~= ids);
        },
        None => {
            assert(after =~= ids.push(agent.agent_id));
            lemma_key_index_found(after, agent.agent_id, ids.len() as int);
            if is_registered(agents, id) {
                lemma_key_index_found(after, id, key_index(ids, id).unwrap());
            }
        },
    }
}

/// The store.
pub struct Database {
    agents: AgentsRepo,
    states: StateRepo,
    events: EventsRepo,
    settings: SettingsRepo,
}

impl View for Database {
    type V = DatabaseView;

    closed spec fn view(&self) -> DatabaseView {
        DatabaseView {
            agents: self.agents@,
            states: self.states@,
            events: self.events@,
            settings: self.settings@,
        }
    }
}

impl Database {
    /// What always holds of the store: every state belongs to an agent of the
    /// registry.
    #[verifier::type_invariant]
    pub open spec fn wf(&self) -> bool {
        references_hold(self@)
    }

    /// The empty store: no agent, no state, no event, no setting.
    pub fn new() -> (r: Self)
        ensures
            r@ == empty_store(),
    {
        Database {
            agents: AgentsRepo::new(),
            states: StateRepo::new(),
            events: EventsRepo::new(),
            settings: SettingsRepo::new(),
        }
    }

    /// The registry of agents.
    pub fn agents(&self) -> (r: &AgentsRepo)
        ensures
            r@ == self@.agents,
    {
        &self.agents
    }

    /// The current state of each agent.
    pub fn states(&self) -> (r: &StateRepo)
        ensures
            r@ == self@.states,
            references_hold(self@),
    {
        proof {
            use_type_invariant(self);
        }
        &self.states
    }

    /// The log of events.
    pub fn events(&self) -> (r: &EventsRepo)
        ensures
            r@ == self@.events,
    {
        &self.events
    }

    /// The settings.
    pub fn settings(&self) -> (r: &SettingsRepo)
        ensures
            r@ == self@.settings,
    {
        &self.settings
    }

    /// Stores an agent in the registry.
    pub fn upsert_agent(&mut self, agent: &MascotAgent)
        ensures
            final(self)@ == db_upsert_agent(old(self)@, agent@),
    {
        proof {
            use_type_invariant(&*self);
        }
        let ghost before = self@;
        let mut states = StateRepo::new();
        std::mem::swap(&mut self.states, &mut states);
        let mut agents = AgentsRepo::new();
        std::mem::swap(&mut self.agents, &mut agents);
        agents.upsert(agent);
        self.agents = agents;
        proof {
            assert forall|i: int| 0 <= i < before.states.len() implies is_registered(
                agents_upsert(before.agents, agent@),
                #[trigger] before.states[i].agent_id,
            ) by {
                lemma_upsert_keeps_registered(before.agents, agent@, before.states[i].agent_id);
            }
        }
        self.states = states;
    }

    /// Hands a record back to the registry as it is: for filling the store from
    /// where it is kept. Says whether the record was added.
    pub fn restore_agent(&mut self, record: AgentRecord) -> (r: bool)
        ensures
            r == !is_registered(old(self)@.agents, record@.agent_id),
            final(self)@ == (DatabaseView {
                agents: agents_restore(old(self)@.agents, record@),
                ..old(self)@
            }),
    {
        proof {
            use_type_invariant(&*self);
        }
        let ghost before = self@;
        let ghost added = record@;
        let mut states = StateRepo::new();
        std::mem::swap(&mut self.states, &mut states);
        let mut agents = AgentsRepo::new();
        std::mem::swap(&mut self.agents, &mut agents);
        let r = agents.restore(record);
        self.agents = agents;
        proof {
            let ids = agent_ids(before.agents);
            let after = agent_ids(agents_restore(before.agents, added));
            if r {
                assert(after =~= ids.push(added.agent_id));
            }
            assert forall|i: int| 0 <= i < before.states.len() implies is_registered(
                agents_restore(before.agents, added),
                #[trigger] before.states[i].agent_id,
            ) by {
                let id = before.states[i].agent_id;
                assert(is_registered(before.agents, id));
                lemma_key_index(ids, id);
                if r {
                    lemma_key_index_found(after, id, key_index(ids, id).unwrap());
                }
            }
        }
        self.states = states;
        r
    }

    /// Stores the state of an agent, if the agent is registered. A state whose
    /// agent the registry does not know is refused: the store stays as it is.
    pub fn upsert_state(&mut self, state: &AgentState) -> (r: Result<(), AppError>)
        ensures
            final(self)@ == db_upsert_state(old(self)@, state@),
            is_registered(old(self)@.agents, state@.agent_id) ==> r is Ok,
            !is_registered(old(self)@.agents, state@.agent_id) ==> (r matches Err(e)
                && is_reference_failure(e)),
    {
        proof {
            use_type_invariant(&*self);
        }
        let ghost before = self@;
        match self.agents.get_by_id(state.agent_id.as_str()) {
            Some(_) => {},
            None => {
                return Err(AppError::Database(String::from_str("FOREIGN KEY constraint failed")));
            },
        }
        let mut states = StateRepo::new();
        std::mem::swap(&mut self.states, &mut states);
        states.upsert(state);
        proof {
            let ids = state_ids(before.states);
            lemma_key_index(ids, state@.agent_id);
            let after = states_upsert(before.states, state@);
            assert forall|i: int| 0 <= i < after.len() implies is_registered(
                before.agents,
                #[trigger] after[i].agent_id,
            ) by {
                if i < before.states.len() {
                    assert(is_registered(before.agents, before.states[i].agent_id));
                }
            }
        }
        self.states = states;
        Ok(())
    }

    /// Offers an event to the log under its fingerprint. `Ok(true)`: added.
    /// `Ok(false)`: a duplicate. `Err`: refused, because the log holds another
    /// event with its id. The store changes only when the event is added.
    pub fn insert_event(&mut self, event: &NormalizedEvent, fingerprint: &str) -> (r: Result<
        bool,
        AppError,
    >)
        ensures
            final(self)@ == db_insert_event(old(self)@, event@, fingerprint@),
            match r {
                Ok(true) => log_accepts(old(self)@.events, event@.id, fingerprint@),
                Ok(false) => log_holds(old(self)@.events, fingerprint@),
                Err(e) => log_refuses(old(self)@.events, event@.id, fingerprint@)
                    && is_id_conflict(e),
            },
            log_wf(final(self)@.events),
    {
        proof {
            use_type_invariant(&*self);
        }
        let mut events = EventsRepo::new();
        std::mem::swap(&mut self.events, &mut events);
        let r = events.insert(event, fingerprint);
        self.events = events;
        r
    }

    /// Gives the setting `key` the value `value`.
    pub fn set_setting(&mut self, key: &str, value: &str)
        ensures
            final(self)@ == (DatabaseView {
                settings: settings_set(old(self)@.settings, key@, value@),
                ..old(self)@
            }),
            setting_value(final(self)@.settings, key@) == Some(value@),
    {
        proof {
            use_type_invariant(&*self);
        }
        let mut settings = SettingsRepo::new();
        std::mem::swap(&mut self.settings, &mut settings);
        settings.set(key, value);
        self.settings = settings;
    }

    /// Takes the value of the setting `key` away. Says whether it had one.
    pub fn delete_setting(&mut self, key: &str) -> (r: bool)
        ensures
            final(self)@ == (DatabaseView {
                settings: settings_delete(old(self)@.settings, key@),
                ..old(self)@
            }),
            r == (setting_value(old(self)@.settings, key@) is Some),
    {
        proof {
            use_type_invariant(&*self);
        }
        let mut settings = SettingsRepo::new();
        std::mem::swap(&mut self.settings, &mut settings);
        let r = settings.delete(key);
        self.settings = settings;
        r
    }
}

/// An agent that has a state is registered, in a store in which every state
/// belongs to an agent of the registry.
pub proof fn lemma_state_has_agent(db: DatabaseView, agent_id: Seq<char>)
    requires
        references_hold(db),
        state_of(db.states, agent_id) is Some,
    ensures
        is_registered(db.agents, agent_id),
{
    let ids = state_ids(db.states);
    lemma_key_index(ids, agent_id);
    let i = key_index(ids, agent_id).unwrap();
    assert(is_registered(db.agents, db.states[i].agent_id));
}

} // verus!
