//! Settings of the agents and of the orchestrations, and the result of a tool.

use vstd::prelude::*;

use crate::text::opt_text;

verus! {

/// Settings of one agent. The sampling temperature is not here: only the host uses it.
#[derive(Debug)]
pub struct DelegateAgentConfig {
    /// The provider that serves the agent's model.
    pub provider: String,
    pub model: String,
    /// The operator's instructions for the agent.
    pub system_prompt: Option<String>,
    /// The agent's own credential for its provider.
    pub api_key: Option<String>,
    pub max_depth: u32,
    /// Whether the agent may call tools in a loop of its own.
    pub agentic: bool,
    /// The parent's tools that the agent may call, by name.
    pub allowed_tools: Vec<String>,
    pub max_iterations: usize,
    pub timeout_secs: Option<u64>,
    /// The agent's own bound on a run with tools.
    pub agentic_timeout_secs: Option<u64>,
    /// Where the agent's skills lie, relative to the workspace.
    pub skills_directory: Option<String>,
    pub memory_namespace: Option<String>,
    /// The skills that are put into the agent's system prompt, by name.
    pub allowed_skills: Vec<String>,
}

/// An orchestration: the agents that run, in their order, and the time for all of them.
#[derive(Debug)]
pub struct OrchestrationConfig {
    pub agents: Vec<String>,
    pub description: Option<String>,
    pub timeout_secs: u64,
}

/// Settings that hold for agents which have none of their own.
#[derive(Debug)]
pub struct DelegateToolConfig {
    pub timeout_secs: u64,
    /// The bound on a run with tools.
    pub agentic_timeout_secs: u64,
}

impl Default for DelegateToolConfig {
    fn default() -> (r: Self)
        ensures
            r.timeout_secs == 120,
            r.agentic_timeout_secs == 300,
    {
        DelegateToolConfig { timeout_secs: 120, agentic_timeout_secs: 300 }
    }
}

/// What a tool gives back.
#[derive(Debug)]
pub struct ToolResult {
    pub success: bool,
    pub output: String,
    pub error: Option<String>,
}

/// The contents of a [`ToolResult`].
pub struct ToolResultView {
    pub success: bool,
    pub output: Seq<char>,
    pub error: Option<Seq<char>>,
}

impl View for ToolResult {
    type V = ToolResultView;

    open spec fn view(&self) -> ToolResultView {
        ToolResultView { success: self.success, output: self.output@, error: opt_text(self.error) }
    }
}

/// A result that says only why nothing was done.
pub open spec fn refusal_view(error: Seq<char>) -> ToolResultView {
    ToolResultView { success: false, output: Seq::empty(), error: Some(error) }
}

/// A result that says only why nothing was done.
pub fn refusal(error: String) -> (r: ToolResult)
    ensures
        r@ == refusal_view(error@),
{
    ToolResult { success: false, output: String::new(), error: Some(error) }
}

} // verus!
