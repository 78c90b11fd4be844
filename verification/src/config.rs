//! The settings that the library is run with.

use vstd::prelude::*;
use vstd::string::*;
use crate::error::ConfigError;
use crate::text::clone_all;

verus! {

/// Where the ingest endpoint listens.
#[derive(Debug)]
pub struct ServerConfig {
    pub host: String,
    pub port: u16,
}

impl Clone for ServerConfig {
    fn clone(&self) -> (r: Self)
        ensures
            r.host@ == self.host@,
            r.port == self.port,
    {
        ServerConfig { host: self.host.clone(), port: self.port }
    }
}

/// How the display layer lays agents out.
#[derive(Debug, Clone, Copy, PartialEq, Eq, Structural)]
pub struct DisplayConfig {
    pub activity_zone_height_px: u32,
    pub taskbar_offset_px: u32,
    pub character_spacing_px: u32,
    pub group_spacing_px: u32,
    pub max_bubble_chars: usize,
    pub bubble_fade_ms: u64,
    pub idle_sway_px: u32,
}

/// After how many seconds in a status a timer moves an agent on.
#[derive(Debug, Clone, Copy, PartialEq, Eq, Structural)]
pub struct TimerTransitionsConfig {
    pub idle_to_resting_secs: u64,
    pub completed_to_disappear_secs: u64,
    pub chat_timeout_secs: u64,
}

/// How the status machine tells a fatal tool failure from one that waits for
/// input.
#[derive(Debug)]
pub struct StateMachineConfig {
    /// A failure whose message holds one of these, in any letter case, is fatal.
    pub fatal_keywords: Vec<String>,
    /// Listed for reference. The classification of a failure does not consult
    /// them: a failure that is not fatal waits for input, whatever its message.
    pub retryable_keywords: Vec<String>,
    /// From this many failures in a row on, a failure is fatal.
    pub fatal_consecutive_failures: u32,
    pub timer_transitions: TimerTransitionsConfig,
}

/// What a [`StateMachineConfig`] holds.
pub struct StateMachineConfigView {
    pub fatal_keywords: Seq<Seq<char>>,
    pub retryable_keywords: Seq<Seq<char>>,
    pub fatal_consecutive_failures: u32,
    pub timer_transitions: TimerTransitionsConfig,
}

impl View for StateMachineConfig {
    type V = StateMachineConfigView;

    open spec fn view(&self) -> StateMachineConfigView {
        StateMachineConfigView {
            fatal_keywords: self.fatal_keywords.deep_view(),
            retryable_keywords: self.retryable_keywords.deep_view(),
            fatal_consecutive_failures: self.fatal_consecutive_failures,
            timer_transitions: self.timer_transitions,
        }
    }
}

impl Clone for StateMachineConfig {
    fn clone(&self) -> (r: Self)
        ensures
            r@ == self@,
    {
        StateMachineConfig {
            fatal_keywords: clone_all(&self.fatal_keywords),
            retryable_keywords: clone_all(&self.retryable_keywords),
            fatal_consecutive_failures: self.fatal_consecutive_failures,
            timer_transitions: self.timer_transitions,
        }
    }
}

/// How often the timers are looked at.
#[derive(Debug, Clone, Copy, PartialEq, Eq, Structural)]
pub struct HeartbeatConfig {
    pub interval_secs: u64,
}

/// How much of an agent's history its summary shows.
#[derive(Debug, Clone, Copy, PartialEq, Eq, Structural)]
pub struct ResumeConfig {
    pub recent_events_limit: usize,
}

/// The token that callers of the ingest endpoint present.
#[derive(Debug)]
pub struct AuthConfig {
    pub token: String,
}

impl Clone for AuthConfig {
    fn clone(&self) -> (r: Self)
        ensures
            r.token@ == self.token@,
    {
        AuthConfig { token: self.token.clone() }
    }
}

/// Whether `e` is the rejection of port zero.
pub open spec fn is_port_rejection(e: ConfigError) -> bool {
    e matches ConfigError::Validation { field, reason } && field@ == "server.port"@ && reason@
        == "port must be > 0"@
}

impl ServerConfig {
    /// Accepts every port but zero.
    pub fn validate(&self) -> (r: Result<(), ConfigError>)
        ensures
            self.port != 0 ==> r is Ok,
            self.port == 0 ==> (r matches Err(e) && is_port_rejection(e)),
    {
        if self.port == 0 {
            Err(
                ConfigError::Validation {
                    field: String::from_str("server.port"),
                    reason: String::from_str("port must be > 0"),
                },
            )
        } else {
            Ok(())
        }
    }
}

} // verus!
