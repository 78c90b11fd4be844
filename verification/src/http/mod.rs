//! The way in for hook payloads.

pub mod ingest;
