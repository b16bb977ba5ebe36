//! A run of an orchestration: the request that asks for it, and its agents in their turns.

use vstd::prelude::*;

use crate::agent::outcome_view;
use crate::config::{
    refusal, refusal_view, DelegateAgentConfig, OrchestrationConfig, ToolResult, ToolResultView,
};
use crate::json::{json_tree, member_text, text_at};
use crate::orchestrator::{list_names, listing, OrchestratorTool};
use crate::text::{texts, trim, trimmed};
use crate::tracking::{calls_view, report, report_text, TrackedToolCall, TrackedToolCallView};

verus! {

/// A parameter that a request has to give and does not.
#[derive(Clone, Copy, PartialEq, Eq, Debug)]
pub enum MissingParameter {
    Orchestration,
    Prompt,
}

impl MissingParameter {
    /// The error as a sentence.
    pub fn message(&self) -> (r: &'static str)
        ensures
            r@ == (match *self {
                MissingParameter::Orchestration => "Missing 'orchestration' parameter"@,
                MissingParameter::Prompt => "Missing 'prompt' parameter"@,
            }),
    {
        match self {
            MissingParameter::Orchestration => "Missing 'orchestration' parameter",
            MissingParameter::Prompt => "Missing 'prompt' parameter",
        }
    }
}

/// What becomes of a request before the security policy is asked.
pub enum OpeningView {
    /// The request lacks a parameter.
    Missing(MissingParameter),
    /// The request is refused, for this reason.
    Refused(Seq<char>),
    /// The orchestration of this name can run, with the trimmed prompt as its task.
    Ready { orchestration: Seq<char>, task: Seq<char> },
}

/// Why an orchestration that is not known is refused.
pub open spec fn unknown_orchestration(name: Seq<char>, names: Seq<Seq<char>>) -> Seq<char> {
    "Unknown orchestration '"@ + name + "'. Available: "@ + listing(names)
}

/// Why an orchestration without agents is refused.
pub open spec fn no_agents(name: Seq<char>) -> Seq<char> {
    "Orchestration '"@ + name + "' has no agents configured"@
}

/// What becomes of a request for an orchestration, by its two parameters. `names` are the
/// names of the orchestrations, in the order in which they are listed.
pub open spec fn opening(
    orchestrations: Map<Seq<char>, OrchestrationConfig>,
    names: Seq<Seq<char>>,
    orchestration: Option<Seq<char>>,
    prompt: Option<Seq<char>>,
) -> OpeningView {
    match orchestration {
        None => OpeningView::Missing(MissingParameter::Orchestration),
        Some(given) => {
            let name = trimmed(given);
            if name.len() == 0 {
                OpeningView::Refused("'orchestration' parameter must not be empty"@)
            } else {
                match prompt {
                    None => OpeningView::Missing(MissingParameter::Prompt),
                    Some(text) => {
                        let task = trimmed(text);
                        if task.len() == 0 {
                            OpeningView::Refused("'prompt' parameter must not be empty"@)
                        } else if !orchestrations.contains_key(name) {
                            OpeningView::Refused(unknown_orchestration(name, names))
                        } else if orchestrations[name].agents@.len() == 0 {
                            OpeningView::Refused(no_agents(name))
                        } else {
                            OpeningView::Ready { orchestration: name, task }
                        }
                    },
                }
            }
        },
    }
}

/// A request that waits for the security policy.
pub struct Request<'a> {
    pub orchestration: &'a str,
    pub task: &'a str,
    pub config: &'a OrchestrationConfig,
}

/// What became of a request.
pub enum Opening<'a> {
    Refused(ToolResult),
    Ready(Request<'a>),
}

/// The part of an orchestration's time that each of its agents has.
pub open spec fn agent_share(timeout_secs: u64, agents: nat) -> int {
    timeout_secs as int / (if agents > 1 {
        agents as int
    } else {
        1
    })
}

/// A run of an orchestration: its agents, whose turn it is, and what that agent is given.
pub struct RunView {
    pub orchestration: Seq<char>,
    pub task: Seq<char>,
    pub agents: Seq<Seq<char>>,
    pub position: int,
    /// The output of the agent before, or the task where there is none.
    pub input: Seq<char>,
    /// Each agent's time, in seconds.
    pub share: int,
}

/// What an agent is asked: the first one the task, each other one the output of the agent
/// before it, and the task.
pub open spec fn agent_prompt_of(run: RunView) -> Seq<char> {
    if run.position == 0 {
        run.input
    } else {
        "[Previous step result]\n"@ + run.input + "\n\n[Original task]\n"@ + run.task
    }
}

/// How a run goes on: an agent has its turn, or the run is over.
pub enum StepView {
    Turn(RunView),
    Finished(ToolResultView),
}

/// The result of a run in which every agent gave an output.
pub open spec fn success_view(
    output: Seq<char>,
    calls: Seq<TrackedToolCallView>,
) -> ToolResultView {
    ToolResultView { success: true, output: report_text(output, calls), error: None }
}

/// The result of a run that came to an agent which is not known.
pub open spec fn unknown_agent_view(
    orchestration: Seq<char>,
    agent: Seq<char>,
    calls: Seq<TrackedToolCallView>,
) -> ToolResultView {
    ToolResultView {
        success: false,
        output: report_text(
            "Unknown agent '"@ + agent + "' in orchestration '"@ + orchestration + "'"@,
            calls,
        ),
        error: Some(
            "Orchestration '"@ + orchestration + "' references unknown agent '"@ + agent + "'"@,
        ),
    }
}

/// The result of a run in which an agent failed.
pub open spec fn failed_agent_view(
    agent: Seq<char>,
    error: Seq<char>,
    calls: Seq<TrackedToolCallView>,
) -> ToolResultView {
    ToolResultView {
        success: false,
        output: report_text("Failed at agent '"@ + agent + "': "@ + error, calls),
        error: Some(error),
    }
}

/// How a run goes on at the position where it stands, after these tool calls.
pub open spec fn step_at(
    agents: Map<Seq<char>, DelegateAgentConfig>,
    run: RunView,
    calls: Seq<TrackedToolCallView>,
) -> StepView {
    if run.position >= run.agents.len() {
        StepView::Finished(success_view(run.input, calls))
    } else if !agents.contains_key(run.agents[run.position]) {
        StepView::Finished(
            unknown_agent_view(run.orchestration, run.agents[run.position], calls),
        )
    } else {
        StepView::Turn(run)
    }
}

/// How a run goes on after an agent's turn. `calls` are the tool calls made so far.
pub open spec fn step_after(
    agents: Map<Seq<char>, DelegateAgentConfig>,
    run: RunView,
    outcome: Result<Seq<char>, Seq<char>>,
    calls: Seq<TrackedToolCallView>,
) -> StepView {
    match outcome {
        Ok(output) => step_at(
            agents,
            RunView { position: run.position + 1, input: output, ..run },
            calls,
        ),
        Err(error) => StepView::Finished(
            failed_agent_view(run.agents[run.position], error, calls),
        ),
    }
}

/// A run that is about to start.
pub open spec fn first_run(
    orchestration: Seq<char>,
    task: Seq<char>,
    config: OrchestrationConfig,
) -> RunView {
    RunView {
        orchestration,
        task,
        agents: texts(config.agents@),
        position: 0,
        input: task,
        share: agent_share(config.timeout_secs, config.agents@.len()),
    }
}

/// How a run starts, by what the security policy says.
pub open spec fn first_step(
    agents: Map<Seq<char>, DelegateAgentConfig>,
    orchestration: Seq<char>,
    task: Seq<char>,
    config: OrchestrationConfig,
    policy: Result<(), Seq<char>>,
) -> StepView {
    match policy {
        Ok(_) => step_at(agents, first_run(orchestration, task, config), Seq::empty()),
        Err(error) => StepView::Finished(refusal_view(error)),
    }
}

/// What the security policy says.
pub open spec fn policy_view(policy: Result<(), String>) -> Result<(), Seq<char>> {
    match policy {
        Ok(_) => Ok(()),
        Err(error) => Err(error@),
    }
}

/// An agent's turn in a run.
pub struct AgentTurn<'a> {
    orchestration: &'a str,
    task: &'a str,
    agents: &'a Vec<String>,
    position: usize,
    input: String,
    share: u64,
    config: &'a DelegateAgentConfig,
    agent_prompt: String,
}

impl<'a> View for AgentTurn<'a> {
    type V = RunView;

    closed spec fn view(&self) -> RunView {
        RunView {
            orchestration: self.orchestration@,
            task: self.task@,
            agents: texts(self.agents@),
            position: self.position as int,
            input: self.input@,
            share: self.share as int,
        }
    }
}

impl<'a> AgentTurn<'a> {
    #[verifier::type_invariant]
    spec fn in_turn(&self) -> bool {
        &&& self.position < self.agents@.len()
        &&& self.agent_prompt@ == agent_prompt_of(self@)
    }

    /// The settings of the agent.
    pub closed spec fn spec_config(&self) -> DelegateAgentConfig {
        *self.config
    }

    /// The name of the agent.
    pub fn agent_name(&self) -> (r: &'a str)
        ensures
            0 <= self@.position < self@.agents.len(),
            r@ == self@.agents[self@.position],
    {
        proof {
            use_type_invariant(self);
        }
        self.agents[self.position].as_str()
    }

    /// The settings of the agent.
    pub fn config(&self) -> (r: &'a DelegateAgentConfig)
        ensures
            *r == self.spec_config(),
    {
        self.config
    }

    /// What the agent is asked.
    pub fn agent_prompt(&self) -> (r: &str)
        ensures
            r@ == agent_prompt_of(self@),
    {
        proof {
            use_type_invariant(self);
        }
        self.agent_prompt.as_str()
    }

    /// The time that the agent has, in seconds.
    pub fn timeout_secs(&self) -> (r: u64)
        ensures
            r == self@.share,
    {
        self.share
    }
}

/// How a run goes on.
pub enum PipelineStep<'a> {
    /// This agent has its turn.
    Turn(AgentTurn<'a>),
    /// The run is over.
    Finished(ToolResult),
}

impl<'a> View for PipelineStep<'a> {
    type V = StepView;

    open spec fn view(&self) -> StepView {
        match self {
            PipelineStep::Turn(turn) => StepView::Turn(turn@),
            PipelineStep::Finished(result) => StepView::Finished(result@),
        }
    }
}

/// An agent's turn comes with that agent's settings.
pub open spec fn turn_is_configured(
    agents: Map<Seq<char>, DelegateAgentConfig>,
    step: PipelineStep,
) -> bool {
    step matches PipelineStep::Turn(turn) ==> {
        &&& 0 <= turn@.position < turn@.agents.len()
        &&& agents.contains_key(turn@.agents[turn@.position])
        &&& turn.spec_config() == agents[turn@.agents[turn@.position]]
    }
}

impl<T, S, R, M> OrchestratorTool<T, S, R, M> {
    /// Takes up a request, by the arguments that the tool was called with.
    pub fn execute<'a>(&'a self, args: &'a serde_json::Value) -> (r: Result<
        Opening<'a>,
        MissingParameter,
    >)
        ensures
            self.opens(
                text_at(json_tree(*args), "orchestration"@),
                text_at(json_tree(*args), "prompt"@),
                r,
            ),
            r matches Ok(Opening::Refused(result)) ==> result.output@.len() == 0,
    {
        self.open(member_text(args, "orchestration"), member_text(args, "prompt"))
    }

    /// Whether `r` is what becomes of a request with these parameters.
    pub open spec fn opens(
        &self,
        orchestration: Option<Seq<char>>,
        prompt: Option<Seq<char>>,
        r: Result<Opening, MissingParameter>,
    ) -> bool {
        match opening(
            self.orchestrations@,
            self.orchestrations.spec_names(),
            orchestration,
            prompt,
        ) {
            OpeningView::Missing(parameter) => r matches Err(missing) && missing == parameter,
            OpeningView::Refused(reason) => {
                &&& r matches Ok(Opening::Refused(result))
                &&& result@ == refusal_view(reason)
            },
            OpeningView::Ready { orchestration: name, task } => {
                &&& r matches Ok(Opening::Ready(request))
                &&& request.orchestration@ == name
                &&& request.task@ == task
                &&& *request.config == self.orchestrations@[name]
            },
        }
    }

    /// Takes up a request, by its two parameters, where they are given as texts.
    pub fn open<'a>(&'a self, orchestration: Option<&'a str>, prompt: Option<&'a str>) -> (r:
        Result<Opening<'a>, MissingParameter>)
        ensures
            self.opens(
                (match orchestration {
                    Some(text) => Some(text@),
                    None => None,
                }),
                (match prompt {
                    Some(text) => Some(text@),
                    None => None,
                }),
                r,
            ),
            r matches Ok(Opening::Refused(result)) ==> result.output@.len() == 0,
    {
        let orch_name = match orchestration {
            Some(text) => trim(text),
            None => return Err(MissingParameter::Orchestration),
        };
        if orch_name.is_empty() {
            return Ok(
                Opening::Refused(
                    refusal("'orchestration' parameter must not be empty".to_owned()),
                ),
            );
        }
        let task = match prompt {
            Some(text) => trim(text),
            None => return Err(MissingParameter::Prompt),
        };
        if task.is_empty() {
            return Ok(
                Opening::Refused(refusal("'prompt' parameter must not be empty".to_owned())),
            );
        }
        let config = match self.orchestrations.get(orch_name) {
            Some(config) => config,
            None => {
                let names = self.orchestrations.names();
                let mut error = "Unknown orchestration '".to_owned();
                error.append(orch_name);
                error.append("'. Available: ");
                error.append(list_names(&names).as_str());
                return Ok(Opening::Refused(refusal(error)));
            },
        };
        if config.agents.len() == 0 {
            let mut error = "Orchestration '".to_owned();
            error.append(orch_name);
            error.append("' has no agents configured");
            return Ok(Opening::Refused(refusal(error)));
        }
        Ok(Opening::Ready(Request { orchestration: orch_name, task, config }))
    }

    /// Starts the run that a request asks for, or refuses it, by what the security policy
    /// says. A run that is over here has an empty output just when the policy refused it.
    pub fn start_run<'a>(&'a self, request: Request<'a>, policy: Result<(), String>) -> (r:
        PipelineStep<'a>)
        ensures
            r@ == first_step(
                self.agents@,
                request.orchestration@,
                request.task@,
                *request.config,
                policy_view(policy),
            ),
            turn_is_configured(self.agents@, r),
            r matches PipelineStep::Finished(result) ==> (result.output@.len() == 0
                <==> policy is Err),
    {
        match policy {
            Ok(_) => {},
            Err(error) => return PipelineStep::Finished(refusal(error)),
        }
        let count: usize = request.config.agents.len();
        let divisor: u64 = if count > 1 {
            count as u64
        } else {
            1
        };
        let share: u64 = request.config.timeout_secs / divisor;
        let calls: Vec<TrackedToolCall> = Vec::new();
        assert(calls_view(calls@) =~= Seq::empty());
        self.next_step(
            request.orchestration,
            request.task,
            &request.config.agents,
            0,
            request.task.to_owned(),
            share,
            &calls,
        )
    }

    /// Goes on with a run after an agent's turn. `calls` are the tool calls that the
    /// agents have made so far. A run that is over here has an output that is not empty.
    pub fn agent_done<'a>(
        &'a self,
        turn: AgentTurn<'a>,
        outcome: Result<String, String>,
        calls: &Vec<TrackedToolCall>,
    ) -> (r: PipelineStep<'a>)
        ensures
            r@ == step_after(self.agents@, turn@, outcome_view(outcome), calls_view(calls@)),
            turn_is_configured(self.agents@, r),
            r matches PipelineStep::Finished(result) ==> result.output@.len() > 0,
    {
        proof {
            use_type_invariant(&turn);
            assert(turn.position < turn.agents.len());
        }
        match outcome {
            Ok(output) => self.next_step(
                turn.orchestration,
                turn.task,
                turn.agents,
                turn.position + 1,
                output,
                turn.share,
                calls,
            ),
            Err(error) => {
                let mut response = "Failed at agent '".to_owned();
                response.append(turn.agents[turn.position].as_str());
                response.append("': ");
                response.append(error.as_str());
                assert(texts(turn.agents@)[turn.position as int]
                    == turn.agents@[turn.position as int]@);
                PipelineStep::Finished(
                    ToolResult {
                        success: false,
                        output: report(response, calls),
                        error: Some(error),
                    },
                )
            },
        }
    }

    fn next_step<'a>(
        &'a self,
        orchestration: &'a str,
        task: &'a str,
        agents: &'a Vec<String>,
        position: usize,
        input: String,
        share: u64,
        calls: &Vec<TrackedToolCall>,
    ) -> (r: PipelineStep<'a>)
        ensures
            r@ == step_at(
                self.agents@,
                (RunView {
                    orchestration: orchestration@,
                    task: task@,
                    agents: texts(agents@),
                    position: position as int,
                    input: input@,
                    share: share as int,
                }),
                calls_view(calls@),
            ),
            turn_is_configured(self.agents@, r),
            r matches PipelineStep::Finished(result) ==> result.output@.len() > 0,
    {
        if position >= agents.len() {
            return PipelineStep::Finished(
                ToolResult { success: true, output: report(input, calls), error: None },
            );
        }
        let agent_name = agents[position].as_str();
        assert(texts(agents@)[position as int] == agent_name@);
        let config = match self.agents.get(agent_name) {
            Some(config) => config,
            None => {
                let mut response = "Unknown agent '".to_owned();
                response.append(agent_name);
                response.append("' in orchestration '");
                response.append(orchestration);
                response.append("'");
                let mut error = "Orchestration '".to_owned();
                error.append(orchestration);
                error.append("' references unknown agent '");
                error.append(agent_name);
                error.append("'");
                return PipelineStep::Finished(
                    ToolResult {
                        success: false,
                        output: report(response, calls),
                        error: Some(error),
                    },
                );
            },
        };
        let agent_prompt = if position == 0 {
            input.clone()
        } else {
            let mut text = "[Previous step result]\n".to_owned();
            text.append(input.as_str());
            text.append("\n\n[Original task]\n");
            text.append(task);
            text
        };
        PipelineStep::Turn(
            AgentTurn {
                orchestration,
                task,
                agents,
                position,
                input,
                share,
                config,
                agent_prompt,
            },
        )
    }
}

} // verus!
