//! Activity tracking for autonomous worker agents.
//!
//! Hook payloads are normalized into canonical events, deduplicated by
//! fingerprint, and fed to a status machine that keeps one current status per
//! agent. Timers move agents that have been idle, done or chatting for long
//! enough. Every change of status is reported as a notification.
//!
//! Every operation takes the store by `&mut` and holds it from the reading of
//! an agent's state to the writing of the state that results: no other
//! operation can come between the two.

pub mod commands;
pub mod config;
pub mod error;
pub mod http;
pub mod json;
pub mod models;
pub mod services;
pub mod storage;
pub mod text;
