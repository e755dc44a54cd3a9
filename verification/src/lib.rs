//! Specialist agents: the prompt each one sends to its completion backend,
//! the way it wraps the backend's answer, and how it presents itself as a tool.

pub mod agents;
pub mod text;
