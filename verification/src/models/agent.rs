//! Agents: who they are and what they are doing.

use vstd::prelude::*;
use crate::text::{clone_opt, opt_str, opt_text, owned, str_eq};

verus! {

/// The part an agent plays in its team.
#[derive(Debug, Clone, Copy, PartialEq, Eq, Hash, Structural)]
pub enum AgentRole {
    Manager,
    Worker,
    Specialist,
    Unknown,
}

/// The tag under which an agent role is stored and sent.
pub open spec fn agent_role_tag(v: AgentRole) -> Seq<char> {
    match v {
        AgentRole::Manager => "manager"@,
        AgentRole::Worker => "worker"@,
        AgentRole::Specialist => "specialist"@,
        AgentRole::Unknown => "unknown"@,
    }
}

/// The role that a tag names, if it names one.
pub open spec fn agent_role_of_tag(tag: Seq<char>) -> Option<AgentRole> {
    if tag == "manager"@ {
        Some(AgentRole::Manager)
    } else if tag == "worker"@ {
        Some(AgentRole::Worker)
    } else if tag == "specialist"@ {
        Some(AgentRole::Specialist)
    } else if tag == "unknown"@ {
        Some(AgentRole::Unknown)
    } else {
        None
    }
}

impl AgentRole {
    /// The tag under which this value is stored and sent.
    pub fn as_tag(&self) -> (r: &'static str)
        ensures
            r@ == agent_role_tag(*self),
    {
        match self {
            AgentRole::Manager => "manager",
            AgentRole::Worker => "worker",
            AgentRole::Specialist => "specialist",
            AgentRole::Unknown => "unknown",
        }
    }

    /// The value that `tag` names; `None` for any other text.
    pub fn from_tag(tag: &str) -> (r: Option<AgentRole>)
        ensures
            r == agent_role_of_tag(tag@),
    {
        if str_eq(tag, "manager") {
            Some(AgentRole::Manager)
        } else if str_eq(tag, "worker") {
            Some(AgentRole::Worker)
        } else if str_eq(tag, "specialist") {
            Some(AgentRole::Specialist)
        } else if str_eq(tag, "unknown") {
            Some(AgentRole::Unknown)
        } else {
            None
        }
    }
}

/// Every role is recovered from its own tag.
pub proof fn lemma_agent_role_tag_round_trip(v: AgentRole)
    ensures
        agent_role_of_tag(agent_role_tag(v)) == Some(v),
{
    reveal_strlit("manager");
    reveal_strlit("worker");
    reveal_strlit("specialist");
    reveal_strlit("unknown");
    assert("manager"@.len() == 7);
    assert("worker"@.len() == 6);
    assert("specialist"@.len() == 10);
    assert("unknown"@.len() == 7);
    assert("manager"@[0] == 'm');
    assert("unknown"@[0] == 'u');
}

/// A text that names a role is the tag of that role.
pub proof fn lemma_agent_role_of_tag_is_tag(tag: Seq<char>)
    requires
        agent_role_of_tag(tag) is Some,
    ensures
        agent_role_tag(agent_role_of_tag(tag).unwrap()) == tag,
{
}

/// Whether an agent is a lasting member of its team or was brought in for a job.
#[derive(Debug, Clone, Copy, PartialEq, Eq, Hash, Structural)]
pub enum EmploymentType {
    Employee,
    Contractor,
}

/// The tag under which an employment type is stored and sent.
pub open spec fn employment_type_tag(v: EmploymentType) -> Seq<char> {
    match v {
        EmploymentType::Employee => "employee"@,
        EmploymentType::Contractor => "contractor"@,
    }
}

/// The type that a tag names, if it names one.
pub open spec fn employment_type_of_tag(tag: Seq<char>) -> Option<EmploymentType> {
    if tag == "employee"@ {
        Some(EmploymentType::Employee)
    } else if tag == "contractor"@ {
        Some(EmploymentType::Contractor)
    } else {
        None
    }
}

impl EmploymentType {
    /// The tag under which this value is stored and sent.
    pub fn as_tag(&self) -> (r: &'static str)
        ensures
            r@ == employment_type_tag(*self),
    {
        match self {
            EmploymentType::Employee => "employee",
            EmploymentType::Contractor => "contractor",
        }
    }

    /// The value that `tag` names; `None` for any other text.
    pub fn from_tag(tag: &str) -> (r: Option<EmploymentType>)
        ensures
            r == employment_type_of_tag(tag@),
    {
        if str_eq(tag, "employee") {
            Some(EmploymentType::Employee)
        } else if str_eq(tag, "contractor") {
            Some(EmploymentType::Contractor)
        } else {
            None
        }
    }
}

/// Every type is recovered from its own tag.
pub proof fn lemma_employment_type_tag_round_trip(v: EmploymentType)
    ensures
        employment_type_of_tag(employment_type_tag(v)) == Some(v),
{
    reveal_strlit("employee");
    reveal_strlit("contractor");
    assert("employee"@.len() == 8);
    assert("contractor"@.len() == 10);
}

/// A text that names a type is the tag of that type.
pub proof fn lemma_employment_type_of_tag_is_tag(tag: Seq<char>)
    requires
        employment_type_of_tag(tag) is Some,
    ensures
        employment_type_tag(employment_type_of_tag(tag).unwrap()) == tag,
{
}

/// What an agent is doing. A newly registered agent is `Offline`; no status is final.
#[derive(Debug, Clone, Copy, PartialEq, Eq, Hash, Structural)]
pub enum AgentStatus {
    Offline,
    Appearing,
    Idle,
    Working,
    Thinking,
    PendingInput,
    Failed,
    Completed,
    Resting,
    Startled,
    Walking,
    Chatting,
    Returning,
    Disappearing,
}

/// The tag under which an agent status is stored and sent.
pub open spec fn agent_status_tag(v: AgentStatus) -> Seq<char> {
    match v {
        AgentStatus::Offline => "offline"@,
        AgentStatus::Appearing => "appearing"@,
        AgentStatus::Idle => "idle"@,
        AgentStatus::Working => "working"@,
        AgentStatus::Thinking => "thinking"@,
        AgentStatus::PendingInput => "pending_input"@,
        AgentStatus::Failed => "failed"@,
        AgentStatus::Completed => "completed"@,
        AgentStatus::Resting => "resting"@,
        AgentStatus::Startled => "startled"@,
        AgentStatus::Walking => "walking"@,
        AgentStatus::Chatting => "chatting"@,
        AgentStatus::Returning => "returning"@,
        AgentStatus::Disappearing => "disappearing"@,
    }
}

/// The status that a tag names, if it names one.
pub open spec fn agent_status_of_tag(tag: Seq<char>) -> Option<AgentStatus> {
    if tag == "offline"@ {
        Some(AgentStatus::Offline)
    } else if tag == "appearing"@ {
        Some(AgentStatus::Appearing)
    } else if tag == "idle"@ {
        Some(AgentStatus::Idle)
    } else if tag == "working"@ {
        Some(AgentStatus::Working)
    } else if tag == "thinking"@ {
        Some(AgentStatus::Thinking)
    } else if tag == "pending_input"@ {
        Some(AgentStatus::PendingInput)
    } else if tag == "failed"@ {
        Some(AgentStatus::Failed)
    } else if tag == "completed"@ {
        Some(AgentStatus::Completed)
    } else if tag == "resting"@ {
        Some(AgentStatus::Resting)
    } else if tag == "startled"@ {
        Some(AgentStatus::Startled)
    } else if tag == "walking"@ {
        Some(AgentStatus::Walking)
    } else if tag == "chatting"@ {
        Some(AgentStatus::Chatting)
    } else if tag == "returning"@ {
        Some(AgentStatus::Returning)
    } else if tag == "disappearing"@ {
        Some(AgentStatus::Disappearing)
    } else {
        None
    }
}

impl AgentStatus {
    /// The tag under which this value is stored and sent.
    pub fn as_tag(&self) -> (r: &'static str)
        ensures
            r@ == agent_status_tag(*self),
    {
        match self {
            AgentStatus::Offline => "offline",
            AgentStatus::Appearing => "appearing",
            AgentStatus::Idle => "idle",
            AgentStatus::Working => "working",
            AgentStatus::Thinking => "thinking",
            AgentStatus::PendingInput => "pending_input",
            AgentStatus::Failed => "failed",
            AgentStatus::Completed => "completed",
            AgentStatus::Resting => "resting",
            AgentStatus::Startled => "startled",
            AgentStatus::Walking => "walking",
            AgentStatus::Chatting => "chatting",
            AgentStatus::Returning => "returning",
            AgentStatus::Disappearing => "disappearing",
        }
    }

    /// The value that `tag` names; `None` for any other text.
    pub fn from_tag(tag: &str) -> (r: Option<AgentStatus>)
        ensures
            r == agent_status_of_tag(tag@),
    {
        if str_eq(tag, "offline") {
            Some(AgentStatus::Offline)
        } else if str_eq(tag, "appearing") {
            Some(AgentStatus::Appearing)
        } else if str_eq(tag, "idle") {
            Some(AgentStatus::Idle)
        } else if str_eq(tag, "working") {
            Some(AgentStatus::Working)
        } else if str_eq(tag, "thinking") {
            Some(AgentStatus::Thinking)
        } else if str_eq(tag, "pending_input") {
            Some(AgentStatus::PendingInput)
        } else if str_eq(tag, "failed") {
            Some(AgentStatus::Failed)
        } else if str_eq(tag, "completed") {
            Some(AgentStatus::Completed)
        } else if str_eq(tag, "resting") {
            Some(AgentStatus::Resting)
        } else if str_eq(tag, "startled") {
            Some(AgentStatus::Startled)
        } else if str_eq(tag, "walking") {
            Some(AgentStatus::Walking)
        } else if str_eq(tag, "chatting") {
            Some(AgentStatus::Chatting)
        } else if str_eq(tag, "returning") {
            Some(AgentStatus::Returning)
        } else if str_eq(tag, "disappearing") {
            Some(AgentStatus::Disappearing)
        } else {
            None
        }
    }
}

/// Every status is recovered from its own tag.
pub proof fn lemma_agent_status_tag_round_trip(v: AgentStatus)
    ensures
        agent_status_of_tag(agent_status_tag(v)) == Some(v),
{
    reveal_strlit("offline");
    reveal_strlit("appearing");
    reveal_strlit("idle");
    reveal_strlit("working");
    reveal_strlit("thinking");
    reveal_strlit("pending_input");
    reveal_strlit("failed");
    reveal_strlit("completed");
    reveal_strlit("resting");
    reveal_strlit("startled");
    reveal_strlit("walking");
    reveal_strlit("chatting");
    reveal_strlit("returning");
    reveal_strlit("disappearing");
    assert("offline"@.len() == 7);
    assert("appearing"@.len() == 9);
    assert("idle"@.len() == 4);
    assert("working"@.len() == 7);
    assert("thinking"@.len() == 8);
    assert("pending_input"@.len() == 13);
    assert("failed"@.len() == 6);
    assert("completed"@.len() == 9);
    assert("resting"@.len() == 7);
    assert("startled"@.len() == 8);
    assert("walking"@.len() == 7);
    assert("chatting"@.len() == 8);
    assert("returning"@.len() == 9);
    assert("disappearing"@.len() == 12);
    assert("appearing"@[0] == 'a');
    assert("chatting"@[0] == 'c');
    assert("completed"@[0] == 'c');
    assert("offline"@[0] == 'o');
    assert("resting"@[0] == 'r');
    assert("returning"@[0] == 'r');
    assert("startled"@[0] == 's');
    assert("thinking"@[0] == 't');
    assert("walking"@[0] == 'w');
    assert("walking"@[1] == 'a');
    assert("working"@[0] == 'w');
    assert("working"@[1] == 'o');
}

/// A text that names a status is the tag of that status.
pub proof fn lemma_agent_status_of_tag_is_tag(tag: Seq<char>)
    requires
        agent_status_of_tag(tag) is Some,
    ensures
        agent_status_tag(agent_status_of_tag(tag).unwrap()) == tag,
{
}

/// The current activity of one agent. There is one such record per registered
/// agent.
#[derive(Debug)]
pub struct AgentState {
    pub agent_id: String,
    pub status: AgentStatus,
    /// The status to resume after a visit to a peer.
    pub prev_status: Option<AgentStatus>,
    pub thinking_text: Option<String>,
    pub current_task: Option<String>,
    pub workspace_id: String,
    /// When the current status began.
    pub since: String,
    /// When the last event for this agent was processed.
    pub last_event_ts: String,
    pub session_id: Option<String>,
    /// The agent being visited, while a visit lasts.
    pub peer_agent_id: Option<String>,
    /// The home position, a binary floating-point number given by its IEEE-754
    /// bit pattern. It is carried, never computed with.
    pub home_x_bits: u64,
}

/// What an [`AgentState`] holds.
pub struct AgentStateView {
    pub agent_id: Seq<char>,
    pub status: AgentStatus,
    pub prev_status: Option<AgentStatus>,
    pub thinking_text: Option<Seq<char>>,
    pub current_task: Option<Seq<char>>,
    pub workspace_id: Seq<char>,
    pub since: Seq<char>,
    pub last_event_ts: Seq<char>,
    pub session_id: Option<Seq<char>>,
    pub peer_agent_id: Option<Seq<char>>,
    pub home_x_bits: u64,
}

impl View for AgentState {
    type V = AgentStateView;

    open spec fn view(&self) -> AgentStateView {
        AgentStateView {
            agent_id: self.agent_id@,
            status: self.status,
            prev_status: self.prev_status,
            thinking_text: opt_text(self.thinking_text),
            current_task: opt_text(self.current_task),
            workspace_id: self.workspace_id@,
            since: self.since@,
            last_event_ts: self.last_event_ts@,
            session_id: opt_text(self.session_id),
            peer_agent_id: opt_text(self.peer_agent_id),
            home_x_bits: self.home_x_bits,
        }
    }
}

impl Clone for AgentState {
    fn clone(&self) -> (r: Self)
        ensures
            r@ == self@,
    {
        AgentState {
            agent_id: self.agent_id.clone(),
            status: self.status,
            prev_status: self.prev_status,
            thinking_text: clone_opt(&self.thinking_text),
            current_task: clone_opt(&self.current_task),
            workspace_id: self.workspace_id.clone(),
            since: self.since.clone(),
            last_event_ts: self.last_event_ts.clone(),
            session_id: clone_opt(&self.session_id),
            peer_agent_id: clone_opt(&self.peer_agent_id),
            home_x_bits: self.home_x_bits,
        }
    }
}

/// The state of an agent that has just been registered at time `ts`: offline,
/// with nothing remembered.
pub open spec fn initial_state(
    agent_id: Seq<char>,
    workspace_id: Seq<char>,
    session_id: Option<Seq<char>>,
    ts: Seq<char>,
) -> AgentStateView {
    AgentStateView {
        agent_id,
        status: AgentStatus::Offline,
        prev_status: None,
        thinking_text: None,
        current_task: None,
        workspace_id,
        since: ts,
        last_event_ts: ts,
        session_id,
        peer_agent_id: None,
        home_x_bits: 0,
    }
}

impl AgentState {
    /// The state of an agent that has just been registered at time `ts`.
    pub fn initial(agent_id: &str, workspace_id: &str, session_id: Option<&str>, ts: &str) -> (r:
        Self)
        ensures
            r@ == initial_state(agent_id@, workspace_id@, opt_str(session_id), ts@),
    {
        AgentState {
            agent_id: String::from_str(agent_id),
            status: AgentStatus::Offline,
            prev_status: None,
            thinking_text: None,
            current_task: None,
            workspace_id: String::from_str(workspace_id),
            since: String::from_str(ts),
            last_event_ts: String::from_str(ts),
            session_id: owned(session_id),
            peer_agent_id: None,
            home_x_bits: 0,
        }
    }
}

/// How many variants each part of a character skeleton offers.
#[derive(Debug, Clone, Copy, PartialEq, Eq, Structural)]
pub struct SlotCounts {
    pub body: usize,
    pub hair: usize,
    pub outfit: usize,
    pub accessory: usize,
    pub face: usize,
}

impl Default for SlotCounts {
    fn default() -> (r: Self)
        ensures
            r == (SlotCounts { body: 0, hair: 0, outfit: 0, accessory: 0, face: 0 }),
    {
        SlotCounts { body: 0, hair: 0, outfit: 0, accessory: 0, face: 0 }
    }
}

/// An agent as the display layer is told of it: who it is, and what it is doing
/// now.
#[derive(Debug)]
pub struct MascotAgent {
    pub agent_id: String,
    pub display_name: String,
    pub role: AgentRole,
    pub employment_type: EmploymentType,
    pub workspace_id: String,
    pub status: AgentStatus,
    pub thinking_text: Option<String>,
    pub current_task: Option<String>,
    /// The cosmetic profile, in its serialized form. Nothing here reads it.
    pub appearance: String,
    pub last_active_ts: String,
}

/// What a [`MascotAgent`] holds.
pub struct MascotAgentView {
    pub agent_id: Seq<char>,
    pub display_name: Seq<char>,
    pub role: AgentRole,
    pub employment_type: EmploymentType,
    pub workspace_id: Seq<char>,
    pub status: AgentStatus,
    pub thinking_text: Option<Seq<char>>,
    pub current_task: Option<Seq<char>>,
    pub appearance: Seq<char>,
    pub last_active_ts: Seq<char>,
}

impl View for MascotAgent {
    type V = MascotAgentView;

    open spec fn view(&self) -> MascotAgentView {
        MascotAgentView {
            agent_id: self.agent_id@,
            display_name: self.display_name@,
            role: self.role,
            employment_type: self.employment_type,
            workspace_id: self.workspace_id@,
            status: self.status,
            thinking_text: opt_text(self.thinking_text),
            current_task: opt_text(self.current_task),
            appearance: self.appearance@,
            last_active_ts: self.last_active_ts@,
        }
    }
}

impl Clone for MascotAgent {
    fn clone(&self) -> (r: Self)
        ensures
            r@ == self@,
    {
        MascotAgent {
            agent_id: self.agent_id.clone(),
            display_name: self.display_name.clone(),
            role: self.role,
            employment_type: self.employment_type,
            workspace_id: self.workspace_id.clone(),
            status: self.status,
            thinking_text: clone_opt(&self.thinking_text),
            current_task: clone_opt(&self.current_task),
            appearance: self.appearance.clone(),
            last_active_ts: self.last_active_ts.clone(),
        }
    }
}

} // verus!
