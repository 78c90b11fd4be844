//! The three relations that the library keeps: the agents, the current state
//! of each, and the log of events; and the settings beside them.

pub mod agents_repo;
pub mod db;
pub mod events_repo;
pub mod keys;
pub mod settings_repo;
pub mod state_repo;
