//! The registry of agents: one record per agent that has ever been seen.

use vstd::prelude::*;
use vstd::string::*;
use crate::models::agent::{AgentRole, AgentStatus, EmploymentType, MascotAgent, MascotAgentView};
use crate::storage::keys::{
    distinct, key_index, lemma_key_index, lemma_key_index_absent, lemma_key_index_found,
};
use crate::text::str_eq;

verus! {

/// What is kept of one agent: who it is, how it looks, and when it was first
/// and last seen.
#[derive(Debug)]
pub struct AgentRecord {
    pub agent_id: String,
    pub display_name: String,
    pub role: AgentRole,
    pub employment_type: EmploymentType,
    pub workspace_id: String,
    /// The cosmetic profile, in its serialized form.
    pub appearance: String,
    pub first_seen_ts: String,
    pub last_active_ts: String,
}

/// What an [`AgentRecord`] holds.
pub struct AgentRecordView {
    pub agent_id: Seq<char>,
    pub display_name: Seq<char>,
    pub role: AgentRole,
    pub employment_type: EmploymentType,
    pub workspace_id: Seq<char>,
    pub appearance: Seq<char>,
    pub first_seen_ts: Seq<char>,
    pub last_active_ts: Seq<char>,
}

impl View for AgentRecord {
    type V = AgentRecordView;

    open spec fn view(&self) -> AgentRecordView {
        AgentRecordView {
            agent_id: self.agent_id@,
            display_name: self.display_name@,
            role: self.role,
            employment_type: self.employment_type,
            workspace_id: self.workspace_id@,
            appearance: self.appearance@,
            first_seen_ts: self.first_seen_ts@,
            last_active_ts: self.last_active_ts@,
        }
    }
}

impl Clone for AgentRecord {
    fn clone(&self) -> (r: Self)
        ensures
            r@ == self@,
    {
        AgentRecord {
            agent_id: self.agent_id.clone(),
            display_name: self.display_name.clone(),
            role: self.role,
            employment_type: self.employment_type,
            workspace_id: self.workspace_id.clone(),
            appearance: self.appearance.clone(),
            first_seen_ts: self.first_seen_ts.clone(),
            last_active_ts: self.last_active_ts.clone(),
        }
    }
}

/// The ids of the agents in the registry, in the order of their records.
pub open spec fn agent_ids(rows: Seq<AgentRecordView>) -> Seq<Seq<char>> {
    Seq::new(rows.len(), |i: int| rows[i].agent_id)
}

/// The record of the agent `id`, if the registry has one.
pub open spec fn agent_record(rows: Seq<AgentRecordView>, id: Seq<char>) -> Option<
    AgentRecordView,
> {
    match key_index(agent_ids(rows), id) {
        Some(i) => Some(rows[i]),
        None => None,
    }
}

/// The record that the first sighting of `agent` makes: first seen when last
/// active.
pub open spec fn first_record(agent: MascotAgentView) -> AgentRecordView {
    AgentRecordView {
        agent_id: agent.agent_id,
        display_name: agent.display_name,
        role: agent.role,
        employment_type: agent.employment_type,
        workspace_id: agent.workspace_id,
        appearance: agent.appearance,
        first_seen_ts: agent.last_active_ts,
        last_active_ts: agent.last_active_ts,
    }
}

/// The record after a later sighting of `agent`: name, cosmetic profile and
/// time of last activity are taken over; the rest, and the time of the first
/// sighting with it, stays.
pub open spec fn refreshed_record(old: AgentRecordView, agent: MascotAgentView) -> AgentRecordView {
    AgentRecordView {
        display_name: agent.display_name,
        appearance: agent.appearance,
        last_active_ts: agent.last_active_ts,
        ..old
    }
}

/// The registry after `agent` has been stored: its record is refreshed where it
/// has one, and added behind the others where it has none.
pub open spec fn agents_upsert(rows: Seq<AgentRecordView>, agent: MascotAgentView) -> Seq<
    AgentRecordView,
> {
    match key_index(agent_ids(rows), agent.agent_id) {
        Some(i) => rows.update(i, refreshed_record(rows[i], agent)),
        None => rows.push(first_record(agent)),
    }
}

/// The registry after `record` has been handed back to it: added behind the
/// others if its agent has no record, and the registry as it was if it has.
pub open spec fn agents_restore(rows: Seq<AgentRecordView>, record: AgentRecordView) -> Seq<
    AgentRecordView,
> {
    if key_index(agent_ids(rows), record.agent_id) is None {
        rows.push(record)
    } else {
        rows
    }
}

/// The agent that a record describes. A record does not say what the agent is
/// doing: the agent is given as offline, with no thinking text and no task.
pub open spec fn agent_of_record(record: AgentRecordView) -> MascotAgentView {
    MascotAgentView {
        agent_id: record.agent_id,
        display_name: record.display_name,
        role: record.role,
        employment_type: record.employment_type,
        workspace_id: record.workspace_id,
        status: AgentStatus::Offline,
        thinking_text: None,
        current_task: None,
        appearance: record.appearance,
        last_active_ts: record.last_active_ts,
    }
}

/// What a list of records holds.
pub open spec fn records_view(rows: Seq<AgentRecord>) -> Seq<AgentRecordView> {
    Seq::new(rows.len(), |i: int| rows[i]@)
}

/// The registry of agents. No agent has two records.
pub struct AgentsRepo {
    rows: Vec<AgentRecord>,
}

impl View for AgentsRepo {
    type V = Seq<AgentRecordView>;

    closed spec fn view(&self) -> Seq<AgentRecordView> {
        records_view(self.rows@)
    }
}

impl AgentsRepo {
    /// What always holds of a registry: no agent has two records.
    #[verifier::type_invariant]
    pub open spec fn wf(&self) -> bool {
        distinct(agent_ids(self@))
    }

    /// The empty registry.
    pub fn new() -> (r: Self)
        ensures
            r@ == Seq::<AgentRecordView>::empty(),
    {
        let r = AgentsRepo { rows: Vec::new() };
        assert(r@ =~= Seq::<AgentRecordView>::empty());
        r
    }

    /// Where the record of agent `id` stands.
    fn find(&self, id: &str) -> (r: Option<usize>)
        ensures
            match r {
                Some(i) => key_index(agent_ids(self@), id@) == Some(i as int) && i
                    < self.rows@.len(),
                None => key_index(agent_ids(self@), id@) is None,
            },
    {
        let mut i: usize = 0;
        while i < self.rows.len()
            invariant
                i <= self.rows@.len(),
                forall|j: int| 0 <= j < i ==> agent_ids(self@)[j] != id@,
            decreases self.rows@.len() - i,
        {
            if str_eq(self.rows[i].agent_id.as_str(), id) {
                proof {
                    lemma_key_index_found(agent_ids(self@), id@, i as int);
                }
                return Some(i);
            }
            i = i + 1;
        }
        proof {
            lemma_key_index_absent(agent_ids(self@), id@);
        }
        None
    }

    /// Stores an agent. The first time, its record is added, first seen at the
    /// time it was last active. Later, its name, cosmetic profile and time of
    /// last activity are refreshed, and nothing else.
    pub fn upsert(&mut self, agent: &MascotAgent)
        ensures
            final(self)@ == agents_upsert(old(self)@, agent@),
    {
        proof {
            use_type_invariant(&*self);
            lemma_key_index(agent_ids(self@), agent@.agent_id);
        }
        match self.find(agent.agent_id.as_str()) {
            Some(i) => {
                let existing = &self.rows[i];
                let record = AgentRecord {
                    agent_id: existing.agent_id.clone(),
                    display_name: agent.display_name.clone(),
                    role: existing.role,
                    employment_type: existing.employment_type,
                    workspace_id: existing.workspace_id.clone(),
                    appearance: agent.appearance.clone(),
                    first_seen_ts: existing.first_seen_ts.clone(),
                    last_active_ts: agent.last_active_ts.clone(),
                };
                let ghost before = self@;
                let mut rows: Vec<AgentRecord> = Vec::new();
                std::mem::swap(&mut self.rows, &mut rows);
                rows.set(i, record);
                proof {
                    assert(records_view(rows@) =~= before.update(
                        i as int,
                        refreshed_record(before[i as int], agent@),
                    ));
                    assert(agent_ids(records_view(rows@)) =~= agent_ids(before));
                }
                self.rows = rows;
            },
            None => {
                let record = AgentRecord {
                    agent_id: agent.agent_id.clone(),
                    display_name: agent.display_name.clone(),
                    role: agent.role,
                    employment_type: agent.employment_type,
                    workspace_id: agent.workspace_id.clone(),
                    appearance: agent.appearance.clone(),
                    first_seen_ts: agent.last_active_ts.clone(),
                    last_active_ts: agent.last_active_ts.clone(),
                };
                let ghost before = self@;
                let mut rows: Vec<AgentRecord> = Vec::new();
                std::mem::swap(&mut self.rows, &mut rows);
                rows.push(record);
                proof {
                    assert(records_view(rows@) =~= before.push(first_record(agent@)));
                    assert(agent_ids(records_view(rows@)) =~= agent_ids(before).push(
                        agent@.agent_id,
                    ));
                }
                self.rows = rows;
            },
        }
    }

    /// Hands a record back to the registry as it is, time of first sighting
    /// included: for filling the registry from where it is kept. A record for
    /// an agent that has one already is left out. Says whether the record was
    /// added.
    pub fn restore(&mut self, record: AgentRecord) -> (r: bool)
        ensures
            r == (key_index(agent_ids(old(self)@), record@.agent_id) is None),
            final(self)@ == agents_restore(old(self)@, record@),
    {
        proof {
            use_type_invariant(&*self);
            lemma_key_index(agent_ids(self@), record@.agent_id);
        }
        match self.find(record.agent_id.as_str()) {
            Some(_) => false,
            None => {
                let ghost before = self@;
                let ghost added = record@;
                let mut rows: Vec<AgentRecord> = Vec::new();
                std::mem::swap(&mut self.rows, &mut rows);
                rows.push(record);
                proof {
                    assert(records_view(rows@) =~= before.push(added));
                    assert(agent_ids(records_view(rows@)) =~= agent_ids(before).push(
                        added.agent_id,
                    ));
                }
                self.rows = rows;
                true
            },
        }
    }

    /// The agent `id` as its record describes it, if it has a record.
    pub fn get_by_id(&self, id: &str) -> (r: Option<MascotAgent>)
        ensures
            match r {
                Some(agent) => agent_record(self@, id@) matches Some(record) && agent@
                    == agent_of_record(record),
                None => agent_record(self@, id@) is None,
            },
    {
        match self.find(id) {
            Some(i) => Some(Self::describe(&self.rows[i])),
            None => None,
        }
    }

    /// The agent that a record describes.
    fn describe(record: &AgentRecord) -> (r: MascotAgent)
        ensures
            r@ == agent_of_record(record@),
    {
        MascotAgent {
            agent_id: record.agent_id.clone(),
            display_name: record.display_name.clone(),
            role: record.role,
            employment_type: record.employment_type,
            workspace_id: record.workspace_id.clone(),
            status: AgentStatus::Offline,
            thinking_text: None,
            current_task: None,
            appearance: record.appearance.clone(),
            last_active_ts: record.last_active_ts.clone(),
        }
    }

    /// All agents, in the order in which they were first stored, each as its
    /// record describes it.
    pub fn get_all(&self) -> (r: Vec<MascotAgent>)
        ensures
            r@.len() == self@.len(),
            forall|i: int|
                0 <= i < self@.len() ==> (#[trigger] r@[i])@ == agent_of_record(self@[i]),
    {
        let mut out: Vec<MascotAgent> = Vec::new();
        let mut i: usize = 0;
        while i < self.rows.len()
            invariant
                i <= self.rows@.len(),
                out@.len() == i,
                forall|j: int| 0 <= j < i ==> (#[trigger] out@[j])@ == agent_of_record(self@[j]),
            decreases self.rows@.len() - i,
        {
            out.push(Self::describe(&self.rows[i]));
            i = i + 1;
        }
        out
    }

    /// When the agent `id` was first seen, if it has a record.
    pub fn first_seen(&self, id: &str) -> (r: Option<String>)
        ensures
            match r {
                Some(ts) => agent_record(self@, id@) matches Some(record) && ts@
                    == record.first_seen_ts,
                None => agent_record(self@, id@) is None,
            },
    {
        match self.find(id) {
            Some(i) => Some(self.rows[i].first_seen_ts.clone()),
            None => None,
        }
    }
}

/// Storing an agent again changes neither when it was first seen nor its role,
/// its employment or its workspace; and what is looked up afterwards is the
/// record with the name, the looks and the time of last activity that were
/// stored.
pub proof fn lemma_upsert_keeps_first_seen(rows: Seq<AgentRecordView>, agent: MascotAgentView)
    requires
        agent_record(rows, agent.agent_id) is Some,
    ensures
        agent_record(agents_upsert(rows, agent), agent.agent_id) == Some(
            refreshed_record(agent_record(rows, agent.agent_id).unwrap(), agent),
        ),
        agents_upsert(rows, agent).len() == rows.len(),
{
    let ids = agent_ids(rows);
    lemma_key_index(ids, agent.agent_id);
    assert(agent_ids(agents_upsert(rows, agent)) =~= ids);
}

/// An agent that is stored for the first time is first seen when it was last
/// active, and is looked up as it was stored.
pub proof fn lemma_first_upsert_registers(rows: Seq<AgentRecordView>, agent: MascotAgentView)
    requires
        agent_record(rows, agent.agent_id) is None,
    ensures
        agent_record(agents_upsert(rows, agent), agent.agent_id) == Some(first_record(agent)),
        agents_upsert(rows, agent).len() == rows.len() + 1,
{
    let ids = agent_ids(rows);
    lemma_key_index(ids, agent.agent_id);
    let after = agent_ids(agents_upsert(rows, agent));
    assert(after =~= ids.push(agent.agent_id));
    lemma_key_index_found(after, agent.agent_id, ids.len() as int);
}

} // verus!
