//! What the display layer is told when an agent changes status.

use vstd::prelude::*;
use crate::models::agent::{AgentRole, AgentStatus, EmploymentType};
use crate::text::opt_text;

verus! {

/// A message to the display layer.
#[derive(Debug)]
pub enum Notification {
    /// An agent has come on stage.
    AgentAppeared {
        agent_id: String,
        display_name: String,
        role: AgentRole,
        employment_type: EmploymentType,
        workspace_id: String,
        status: AgentStatus,
        /// The cosmetic profile, in its serialized form.
        appearance: String,
        ts: String,
    },
    /// An agent has left the stage.
    AgentDeparted { agent_id: String, ts: String },
    /// An agent has changed status.
    AgentStatusUpdate {
        agent_id: String,
        status: AgentStatus,
        prev_status: AgentStatus,
        thinking_text: Option<String>,
        current_task: Option<String>,
        workspace_id: String,
        peer_agent_id: Option<String>,
        chat_message: Option<String>,
        ts: String,
    },
}

/// What a [`Notification`] holds.
pub enum NotificationView {
    AgentAppeared {
        agent_id: Seq<char>,
        display_name: Seq<char>,
        role: AgentRole,
        employment_type: EmploymentType,
        workspace_id: Seq<char>,
        status: AgentStatus,
        appearance: Seq<char>,
        ts: Seq<char>,
    },
    AgentDeparted { agent_id: Seq<char>, ts: Seq<char> },
    AgentStatusUpdate {
        agent_id: Seq<char>,
        status: AgentStatus,
        prev_status: AgentStatus,
        thinking_text: Option<Seq<char>>,
        current_task: Option<Seq<char>>,
        workspace_id: Seq<char>,
        peer_agent_id: Option<Seq<char>>,
        chat_message: Option<Seq<char>>,
        ts: Seq<char>,
    },
}

impl View for Notification {
    type V = NotificationView;

    open spec fn view(&self) -> NotificationView {
        match *self {
            Notification::AgentAppeared {
                agent_id,
                display_name,
                role,
                employment_type,
                workspace_id,
                status,
                appearance,
                ts,
            } => NotificationView::AgentAppeared {
                agent_id: agent_id@,
                display_name: display_name@,
                role,
                employment_type,
                workspace_id: workspace_id@,
                status,
                appearance: appearance@,
                ts: ts@,
            },
            Notification::AgentDeparted { agent_id, ts } => NotificationView::AgentDeparted {
                agent_id: agent_id@,
                ts: ts@,
            },
            Notification::AgentStatusUpdate {
                agent_id,
                status,
                prev_status,
                thinking_text,
                current_task,
                workspace_id,
                peer_agent_id,
                chat_message,
                ts,
            } => NotificationView::AgentStatusUpdate {
                agent_id: agent_id@,
                status,
                prev_status,
                thinking_text: opt_text(thinking_text),
                current_task: opt_text(current_task),
                workspace_id: workspace_id@,
                peer_agent_id: opt_text(peer_agent_id),
                chat_message: opt_text(chat_message),
                ts: ts@,
            },
        }
    }
}

/// What a list of notifications holds.
pub open spec fn notifications_view(list: Seq<Notification>) -> Seq<NotificationView> {
    Seq::new(list.len(), |i: int| list[i]@)
}

impl Notification {
    /// The name of the channel that the notification is published on.
    pub fn channel(&self) -> (r: &'static str)
        ensures
            r@ == channel_of(self@),
    {
        match self {
            Notification::AgentAppeared { .. } => "mascot://agent-appeared",
            Notification::AgentDeparted { .. } => "mascot://agent-departed",
            Notification::AgentStatusUpdate { .. } => "mascot://agent-update",
        }
    }
}

/// The name of the channel that a notification is published on.
pub open spec fn channel_of(n: NotificationView) -> Seq<char> {
    match n {
        NotificationView::AgentAppeared { .. } => "mascot://agent-appeared"@,
        NotificationView::AgentDeparted { .. } => "mascot://agent-departed"@,
        NotificationView::AgentStatusUpdate { .. } => "mascot://agent-update"@,
    }
}

} // verus!
