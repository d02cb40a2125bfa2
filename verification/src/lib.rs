//! Verified core of a DNS forwarding daemon.
//!
//! The library holds the query-handling and resolution pipeline: request
//! validation, the filter/forward routing decision, per-record-type planning
//! of upstream lookups (including the reverse-DNS path for PTR queries),
//! classification of upstream failures, and response assembly. The
//! surrounding daemon performs the network calls and hands their outcomes to
//! the verified functions here.

pub mod types;
pub mod reverse;
pub mod config;
pub mod resolver;
pub mod handler;
pub mod laws;
