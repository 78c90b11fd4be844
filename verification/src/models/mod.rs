//! The records that the library keeps and passes on.

pub mod agent;
pub mod event;
pub mod notification;
