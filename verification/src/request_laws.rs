//! How the tool presents itself, what becomes of a request, and how its run goes on.
//!
//! A law here holds of every call: what was given and what came back are its parameters.

use vstd::prelude::*;

use crate::config::{DelegateAgentConfig, DelegateToolConfig, OrchestrationConfig};
use crate::json::{json_tree, text_at, JsonTree};
use crate::laws::law_blank_iff_trimmed_away;
use crate::operations::{lemma_report_text, reports};
use crate::orchestrator::{path_bytes, OrchestratorTool};
use crate::pipeline::{
    agent_share, AgentTurn, MissingParameter, Opening, PipelineStep, Request,
};
use crate::table::NameTable;
use crate::text::{decimal_text, is_blank, joined, texts, trimmed};
use crate::tracking::{calls_view, TrackedToolCall, TrackedToolCallView};
use std::path::PathBuf;

verus! {

broadcast use vstd::string::group_string_axioms;

// ---- Settings ----

/// A tool has the orchestrations, agents, credential, policy and options that it was made
/// with. Until others are set, its workspace is empty, and a run with tools has at most five
/// minutes.
pub proof fn law_new<T: Default, S, R, M: Default>(
    orchestrations: NameTable<OrchestrationConfig>,
    agents: NameTable<DelegateAgentConfig>,
    fallback_credential: Option<String>,
    security: S,
    provider_runtime_options: R,
    r: OrchestratorTool<T, S, R, M>,
)
    requires
        call_ensures(
            OrchestratorTool::<T, S, R, M>::new,
            (orchestrations, agents, fallback_credential, security, provider_runtime_options),
            r,
        ),
    ensures
        r.orchestrations == orchestrations,
        r.agents == agents,
        r.fallback_credential == fallback_credential,
        r.security == security,
        r.provider_runtime_options == provider_runtime_options,
        path_bytes(r.workspace_dir).len() == 0,
        r.delegate_config.timeout_secs == 120,
        r.delegate_config.agentic_timeout_secs == 300,
{
}

/// Each setting can be set by itself, and the others stay as they are, in whatever order
/// they are set.
pub proof fn law_settings_are_independent<T, S, R, M>(
    tool: OrchestratorTool<T, S, R, M>,
    handle: T,
    multimodal: M,
    delegate: DelegateToolConfig,
    dir: PathBuf,
    with_tools: OrchestratorTool<T, S, R, M>,
    with_multimodal: OrchestratorTool<T, S, R, M>,
    with_delegate: OrchestratorTool<T, S, R, M>,
    r: OrchestratorTool<T, S, R, M>,
)
    requires
        call_ensures(
            OrchestratorTool::<T, S, R, M>::with_parent_tools,
            (tool, handle),
            with_tools,
        ),
        call_ensures(
            OrchestratorTool::<T, S, R, M>::with_multimodal_config,
            (with_tools, multimodal),
            with_multimodal,
        ),
        call_ensures(
            OrchestratorTool::<T, S, R, M>::with_delegate_config,
            (with_multimodal, delegate),
            with_delegate,
        ),
        call_ensures(
            OrchestratorTool::<T, S, R, M>::with_workspace_dir,
            (with_delegate, dir),
            r,
        ),
    ensures
        r.parent_tools == handle,
        r.multimodal_config == multimodal,
        r.delegate_config == delegate,
        r.workspace_dir == dir,
        r.orchestrations == tool.orchestrations,
        r.agents == tool.agents,
        r.fallback_credential == tool.fallback_credential,
        r.provider_runtime_options == tool.provider_runtime_options,
        r.security == tool.security,
        with_tools.delegate_config == tool.delegate_config,
        with_tools.multimodal_config == tool.multimodal_config,
        with_tools.workspace_dir == tool.workspace_dir,
        with_multimodal.delegate_config == tool.delegate_config,
        with_multimodal.workspace_dir == tool.workspace_dir,
        with_delegate.workspace_dir == tool.workspace_dir,
{
}

// ---- How the tool presents itself ----

/// The tool is called by one name, whatever its settings.
pub proof fn law_name<T, S, R, M>(tool: &OrchestratorTool<T, S, R, M>, r: &str)
    requires
        call_ensures(OrchestratorTool::<T, S, R, M>::name, (tool,), r),
    ensures
        r@ == "orchestrate"@,
{
}

/// The tool says the same of what it is for, whatever its settings.
pub proof fn law_description<T, S, R, M>(
    tool: &OrchestratorTool<T, S, R, M>,
    other: &OrchestratorTool<T, S, R, M>,
    r: &str,
    of_other: &str,
)
    requires
        call_ensures(OrchestratorTool::<T, S, R, M>::description, (tool,), r),
        call_ensures(OrchestratorTool::<T, S, R, M>::description, (other,), of_other),
    ensures
        r@ == of_other@,
{
}

/// The schema of a parameter that is a text with at least one character: its type, its
/// length, its description, and nothing else.
pub open spec fn asks_for_text(tree: JsonTree, description: Seq<char>) -> bool {
    tree matches JsonTree::Object(members) && {
        &&& members.dom() == set!["type"@, "minLength"@, "description"@]
        &&& members["type"@] == JsonTree::Text("string"@)
        &&& members["minLength"@] == JsonTree::Number("1"@)
        &&& members["description"@] == JsonTree::Text(description)
    }
}

/// The schema asks for both parameters and allows no others, and the description of the
/// first lists every orchestration, or says that there is none.
pub proof fn law_parameters_schema<T, S, R, M>(
    tool: &OrchestratorTool<T, S, R, M>,
    names: Vec<String>,
    r: serde_json::Value,
)
    requires
        call_ensures(OrchestratorTool::<T, S, R, M>::parameters_schema, (tool,), r),
        call_ensures(
            NameTable::<OrchestrationConfig>::names,
            (&tool.orchestrations,),
            names,
        ),
    ensures
        json_tree(r) matches JsonTree::Object(schema) && {
            &&& schema.dom() == set!["type"@, "additionalProperties"@, "properties"@, "required"@]
            &&& schema["type"@] == JsonTree::Text("object"@)
            &&& schema["additionalProperties"@] == JsonTree::Bool(false)
            &&& schema["required"@] == JsonTree::Array(
                seq![JsonTree::Text("orchestration"@), JsonTree::Text("prompt"@)],
            )
            &&& schema["properties"@] matches JsonTree::Object(properties) && {
                &&& properties.dom() == set!["orchestration"@, "prompt"@]
                &&& asks_for_text(
                    properties["orchestration"@],
                    "Name of the orchestration to run. Available: "@ + (if names@.len() == 0 {
                        "(none configured)"@
                    } else {
                        joined(names@.map_values(|name: String| name@), ", "@)
                    }),
                )
                &&& asks_for_text(
                    properties["prompt"@],
                    "The task/prompt for the orchestration pipeline"@,
                )
            }
        },
        forall|name: Seq<char>|
            tool.orchestrations@.contains_key(name) <==> exists|i: int|
                0 <= i < names@.len() && #[trigger] names@[i]@ == name,
{
    reveal_strlit("type");
    reveal_strlit("additionalProperties");
    reveal_strlit("required");
    reveal_strlit("properties");
    reveal_strlit("orchestration");
    reveal_strlit("prompt");
    reveal_strlit("minLength");
    reveal_strlit("description");
    reveal_strlit("1");
    assert("type"@.len() == 4 && "additionalProperties"@.len() == 20);
    assert("required"@.len() == 8 && "properties"@.len() == 10);
    assert("orchestration"@.len() == 13 && "prompt"@.len() == 6);
    assert("minLength"@.len() == 9 && "description"@.len() == 11);
    assert(decimal_text(1) =~= "1"@);
    assert(texts(names@) =~= names@.map_values(|name: String| name@));
    assert(texts(names@).len() == names@.len());
    if let JsonTree::Object(schema) = json_tree(r) {
        assert(schema.dom() =~= set![
            "type"@,
            "additionalProperties"@,
            "properties"@,
            "required"@,
        ]);
        if let JsonTree::Object(properties) = schema["properties"@] {
            assert(properties.dom() =~= set!["orchestration"@, "prompt"@]);
            if let JsonTree::Object(members) = properties["orchestration"@] {
                assert(members.dom() =~= set!["type"@, "minLength"@, "description"@]);
            }
            if let JsonTree::Object(members) = properties["prompt"@] {
                assert(members.dom() =~= set!["type"@, "minLength"@, "description"@]);
            }
        }
    }
    assert forall|name: Seq<char>|
        tool.orchestrations@.contains_key(name) <==> exists|i: int|
            0 <= i < names@.len() && #[trigger] names@[i]@ == name by {
        if tool.orchestrations@.contains_key(name) {
            assert(texts(names@).contains(name));
            let i: int = choose|i: int| 0 <= i < texts(names@).len() && texts(names@)[i] == name;
            assert(names@[i]@ == name);
        }
        if exists|i: int| 0 <= i < names@.len() && #[trigger] names@[i]@ == name {
            let i: int = choose|i: int| 0 <= i < names@.len() && #[trigger] names@[i]@ == name;
            assert(texts(names@)[i] == name);
            assert(texts(names@).contains(name));
        }
    }
}

// ---- Requests ----

/// What becomes of a request by its two parameters. They are looked at one after the other:
/// the name of the orchestration, the prompt, whether there is such an orchestration, and
/// whether it has agents. The first thing that is amiss decides; where nothing is, the
/// request is ready with both parameters trimmed and the settings under that name.
pub open spec fn answers<T, S, R, M>(
    tool: &OrchestratorTool<T, S, R, M>,
    orchestration: Option<Seq<char>>,
    prompt: Option<Seq<char>>,
    r: Result<Opening, MissingParameter>,
) -> bool {
    let name = trimmed(orchestration->Some_0);
    let task = trimmed(prompt->Some_0);
    let known = tool.orchestrations@;
    if orchestration is None {
        r == Err::<Opening, MissingParameter>(MissingParameter::Orchestration)
    } else if is_blank(orchestration->Some_0) {
        refuses(r, "'orchestration' parameter must not be empty"@)
    } else if prompt is None {
        r == Err::<Opening, MissingParameter>(MissingParameter::Prompt)
    } else if is_blank(prompt->Some_0) {
        refuses(r, "'prompt' parameter must not be empty"@)
    } else if !known.contains_key(name) {
        refuses(
            r,
            "Unknown orchestration '"@ + name + "'. Available: "@ + (
            if tool.orchestrations.spec_names().len() == 0 {
                "(none configured)"@
            } else {
                joined(tool.orchestrations.spec_names(), ", "@)
            }),
        )
    } else if known[name].agents@.len() == 0 {
        refuses(r, "Orchestration '"@ + name + "' has no agents configured"@)
    } else {
        r matches Ok(Opening::Ready(request)) && {
            &&& request.orchestration@ == name
            &&& request.task@ == task
            &&& *request.config == known[name]
        }
    }
}

/// A refusal for this reason, with nothing done.
pub open spec fn refuses(r: Result<Opening, MissingParameter>, reason: Seq<char>) -> bool {
    r matches Ok(Opening::Refused(result)) && {
        &&& !result.success
        &&& result.output@.len() == 0
        &&& result.error matches Some(text) && text@ == reason
    }
}

proof fn lemma_answers<T, S, R, M>(
    tool: &OrchestratorTool<T, S, R, M>,
    orchestration: Option<Seq<char>>,
    prompt: Option<Seq<char>>,
    r: Result<Opening, MissingParameter>,
)
    requires
        tool.opens(orchestration, prompt, r),
    ensures
        answers(tool, orchestration, prompt, r),
{
    if orchestration is Some {
        law_blank_iff_trimmed_away(orchestration->Some_0);
    }
    if prompt is Some {
        law_blank_iff_trimmed_away(prompt->Some_0);
    }
}

/// A request is answered by its two parameters.
pub proof fn law_open<T, S, R, M>(
    tool: &OrchestratorTool<T, S, R, M>,
    orchestration: Option<&str>,
    prompt: Option<&str>,
    r: Result<Opening, MissingParameter>,
)
    requires
        call_ensures(OrchestratorTool::<T, S, R, M>::open, (tool, orchestration, prompt), r),
    ensures
        answers(
            tool,
            (match orchestration {
                Some(text) => Some(text@),
                None => None,
            }),
            (match prompt {
                Some(text) => Some(text@),
                None => None,
            }),
            r,
        ),
{
    let name = match orchestration {
        Some(text) => Some(text@),
        None => None,
    };
    let task = match prompt {
        Some(text) => Some(text@),
        None => None,
    };
    lemma_answers(tool, name, task, r);
}

/// The parameters of a request are the members of its arguments that are strings; anything
/// else counts as missing.
pub proof fn law_execute<T, S, R, M>(
    tool: &OrchestratorTool<T, S, R, M>,
    args: &serde_json::Value,
    r: Result<Opening, MissingParameter>,
)
    requires
        call_ensures(OrchestratorTool::<T, S, R, M>::execute, (tool, args), r),
    ensures
        answers(
            tool,
            (match json_tree(*args) {
                JsonTree::Object(members) if members.contains_key("orchestration"@)
                    && members["orchestration"@] is Text => Some(
                    members["orchestration"@]->Text_0,
                ),
                _ => None,
            }),
            (match json_tree(*args) {
                JsonTree::Object(members) if members.contains_key("prompt"@)
                    && members["prompt"@] is Text => Some(members["prompt"@]->Text_0),
                _ => None,
            }),
            r,
        ),
{
    lemma_answers(
        tool,
        text_at(json_tree(*args), "orchestration"@),
        text_at(json_tree(*args), "prompt"@),
        r,
    );
}

// ---- Runs ----

/// A run that is over because of an agent that is not known.
pub open spec fn ends_at_unknown(
    r: PipelineStep,
    orchestration: Seq<char>,
    agent: Seq<char>,
    calls: Seq<TrackedToolCall>,
) -> bool {
    r matches PipelineStep::Finished(result) && {
        &&& !result.success
        &&& result.error matches Some(text) && text@ == "Orchestration '"@ + orchestration
            + "' references unknown agent '"@ + agent + "'"@
        &&& reports(
            result.output@,
            "Unknown agent '"@ + agent + "' in orchestration '"@ + orchestration + "'"@,
            calls,
        )
    }
}

/// A run that is over because every agent gave an output, of which this is the last.
pub open spec fn ends_well(
    r: PipelineStep,
    output: Seq<char>,
    calls: Seq<TrackedToolCall>,
) -> bool {
    r matches PipelineStep::Finished(result) && {
        &&& result.success
        &&& result.error is None
        &&& reports(result.output@, output, calls)
    }
}

/// A run that the security policy forbids is over, with the policy's reason and no output.
/// One that it consents to starts with the first agent, which is given the task, if that
/// agent is known. Each agent has the same whole number of seconds, the most of which all
/// agents together do not exceed the orchestration's time.
pub proof fn law_start_run<T, S, R, M>(
    tool: &OrchestratorTool<T, S, R, M>,
    request: Request,
    policy: Result<(), String>,
    r: PipelineStep,
)
    requires
        call_ensures(OrchestratorTool::<T, S, R, M>::start_run, (tool, request, policy), r),
    ensures
        policy matches Err(reason) ==> (r matches PipelineStep::Finished(result) && {
            &&& !result.success
            &&& result.output@.len() == 0
            &&& result.error matches Some(text) && text@ == reason@
        }),
        policy is Ok ==> {
            let agents = request.config.agents@;
            if agents.len() == 0 {
                ends_well(r, request.task@, Seq::empty())
            } else if !tool.agents@.contains_key(agents[0]@) {
                ends_at_unknown(r, request.orchestration@, agents[0]@, Seq::empty())
            } else {
                r matches PipelineStep::Turn(turn) && {
                    &&& turn@.orchestration == request.orchestration@
                    &&& turn@.task == request.task@
                    &&& turn@.agents.len() == agents.len()
                    &&& forall|i: int|
                        0 <= i < agents.len() ==> #[trigger] turn@.agents[i] == agents[i]@
                    &&& turn@.position == 0
                    &&& turn@.input == request.task@
                    &&& turn@.share * agents.len() <= request.config.timeout_secs < (turn@.share
                        + 1) * agents.len()
                }
            }
        },
{
    let agents = request.config.agents@;
    let none = Seq::<TrackedToolCall>::empty();
    assert(calls_view(none) =~= Seq::<TrackedToolCallView>::empty());
    lemma_report_text(request.task@, none);
    if agents.len() > 0 {
        assert(texts(agents)[0] == agents[0]@);
        lemma_report_text(
            "Unknown agent '"@ + agents[0]@ + "' in orchestration '"@ + request.orchestration@
                + "'"@,
            none,
        );
        let n = agents.len() as int;
        let time = request.config.timeout_secs as int;
        let share: int = agent_share(request.config.timeout_secs, agents.len());
        assert(share == time / n);
        assert(share * n <= time < (share + 1) * n) by (nonlinear_arith)
            requires
                n > 0,
                share == time / n,
        ;
    }
}

/// An agent that fails ends the run, with its error. After one that gave an output the next
/// has its turn, if it is known, and is given that output; everything else stays. After the
/// last the run is a success. Whatever ends it, the report has every call so far.
pub proof fn law_agent_done<T, S, R, M>(
    tool: &OrchestratorTool<T, S, R, M>,
    turn: AgentTurn,
    outcome: Result<String, String>,
    calls: &Vec<TrackedToolCall>,
    r: PipelineStep,
)
    requires
        call_ensures(OrchestratorTool::<T, S, R, M>::agent_done, (tool, turn, outcome, calls), r),
    ensures
        outcome matches Err(error) ==> (r matches PipelineStep::Finished(result) && {
            &&& !result.success
            &&& result.error matches Some(text) && text@ == error@
            &&& reports(
                result.output@,
                "Failed at agent '"@ + turn@.agents[turn@.position] + "': "@ + error@,
                calls@,
            )
        }),
        outcome matches Ok(output) ==> {
            let next = turn@.position + 1;
            if next >= turn@.agents.len() {
                ends_well(r, output@, calls@)
            } else if !tool.agents@.contains_key(turn@.agents[next]) {
                ends_at_unknown(r, turn@.orchestration, turn@.agents[next], calls@)
            } else {
                r matches PipelineStep::Turn(after) && {
                    &&& after@.orchestration == turn@.orchestration
                    &&& after@.task == turn@.task
                    &&& after@.agents == turn@.agents
                    &&& after@.position == next
                    &&& after@.input == output@
                    &&& after@.share == turn@.share
                }
            }
        },
{
    match outcome {
        Err(error) => {
            lemma_report_text(
                "Failed at agent '"@ + turn@.agents[turn@.position] + "': "@ + error@,
                calls@,
            );
        },
        Ok(output) => {
            let next = turn@.position + 1;
            lemma_report_text(output@, calls@);
            lemma_report_text(
                "Unknown agent '"@ + turn@.agents[next] + "' in orchestration '"@
                    + turn@.orchestration + "'"@,
                calls@,
            );
        },
    }
}

/// An agent in its turn is the one on the list whose turn it is. The first is asked what it
/// is given, each other one is told what it is given and the task. It has its share of the
/// time.
pub proof fn law_turn(
    turn: &AgentTurn,
    agent_name: &str,
    agent_prompt: &str,
    timeout_secs: u64,
)
    requires
        call_ensures(AgentTurn::agent_name, (turn,), agent_name),
        call_ensures(AgentTurn::agent_prompt, (turn,), agent_prompt),
        call_ensures(AgentTurn::timeout_secs, (turn,), timeout_secs),
    ensures
        0 <= turn@.position < turn@.agents.len(),
        agent_name@ == turn@.agents[turn@.position],
        turn@.position == 0 ==> agent_prompt@ == turn@.input,
        turn@.position > 0 ==> agent_prompt@ == "[Previous step result]\n"@ + turn@.input
            + "\n\n[Original task]\n"@ + turn@.task,
        timeout_secs == turn@.share,
{
}

/// An agent in its turn has the settings that are kept under its name.
pub proof fn law_turn_has_its_settings<T, S, R, M>(
    tool: &OrchestratorTool<T, S, R, M>,
    request: Request,
    policy: Result<(), String>,
    before: AgentTurn,
    outcome: Result<String, String>,
    calls: &Vec<TrackedToolCall>,
    turn: AgentTurn,
    agent_name: &str,
    agent_config: &DelegateAgentConfig,
)
    requires
        call_ensures(
            OrchestratorTool::<T, S, R, M>::start_run,
            (tool, request, policy),
            PipelineStep::Turn(turn),
        ) || call_ensures(
            OrchestratorTool::<T, S, R, M>::agent_done,
            (tool, before, outcome, calls),
            PipelineStep::Turn(turn),
        ),
        call_ensures(AgentTurn::agent_name, (&turn,), agent_name),
        call_ensures(AgentTurn::config, (&turn,), agent_config),
    ensures
        tool.agents@.contains_key(agent_name@),
        *agent_config == tool.agents@[agent_name@],
{
}

/// The agents of a run have their turns in the order of the list, and the second is told
/// what the first gave out and the task that the first was asked; both have the same time.
pub proof fn law_output_is_handed_on<T, S, R, M>(
    tool: &OrchestratorTool<T, S, R, M>,
    request: Request,
    policy: Result<(), String>,
    first: AgentTurn,
    first_name: &str,
    first_prompt: &str,
    first_secs: u64,
    output: String,
    calls: &Vec<TrackedToolCall>,
    second: AgentTurn,
    second_name: &str,
    second_prompt: &str,
    second_secs: u64,
)
    requires
        call_ensures(
            OrchestratorTool::<T, S, R, M>::start_run,
            (tool, request, policy),
            PipelineStep::Turn(first),
        ),
        call_ensures(AgentTurn::agent_name, (&first,), first_name),
        call_ensures(AgentTurn::agent_prompt, (&first,), first_prompt),
        call_ensures(AgentTurn::timeout_secs, (&first,), first_secs),
        call_ensures(
            OrchestratorTool::<T, S, R, M>::agent_done,
            (tool, first, Ok(output), calls),
            PipelineStep::Turn(second),
        ),
        call_ensures(AgentTurn::agent_name, (&second,), second_name),
        call_ensures(AgentTurn::agent_prompt, (&second,), second_prompt),
        call_ensures(AgentTurn::timeout_secs, (&second,), second_secs),
    ensures
        request.config.agents@.len() >= 2,
        first_name@ == request.config.agents@[0]@,
        first_prompt@ == request.task@,
        second_name@ == request.config.agents@[1]@,
        second_prompt@ == "[Previous step result]\n"@ + output@ + "\n\n[Original task]\n"@
            + request.task@,
        first_secs == second_secs,
        first_secs * request.config.agents@.len() <= request.config.timeout_secs,
{
    law_start_run(tool, request, policy, PipelineStep::Turn(first));
    law_agent_done(tool, first, Ok(output), calls, PipelineStep::Turn(second));
}

} // verus!
