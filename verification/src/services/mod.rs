//! What the library does with events: normalizing them, moving agents between
//! statuses, and watching the timers.

pub mod appearance;
pub mod cursor_poll;
pub mod heartbeat;
pub mod normalizer;
pub mod state_machine;
