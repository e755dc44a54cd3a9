//! Agents that an orchestrator can route a request to.

pub mod definition;
pub mod specialized;
