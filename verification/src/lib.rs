//! Sequential multi-agent orchestration: the decisions of a tool that runs a
//! list of agents one after the other, hands each one's output to the next,
//! and reports every tool call that the agents made on the way.
//!
//! Everything that waits (creating a provider, asking a model, running a tool)
//! is done by the host. The library says what to do next and what to make of
//! the answer.

pub mod agent;
pub mod config;
pub mod json;
pub mod laws;
pub mod operations;
pub mod orchestrator;
pub mod pipeline;
pub mod prompt;
pub mod request_laws;
pub mod runs;
pub mod selection;
pub mod table;
pub mod text;
pub mod tracking;
pub mod turn_laws;
