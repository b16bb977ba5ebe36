use orchestrator::agent::{AgentStep, Reply};
use orchestrator::config::{DelegateAgentConfig, OrchestrationConfig, ToolResult};
use orchestrator::orchestrator::OrchestratorTool;
use orchestrator::pipeline::{MissingParameter, Opening, PipelineStep};
use orchestrator::table::NameTable;
use orchestrator::tracking::{track_call, TrackedToolCall, ORCHESTRATED_CALLS_KEY};
use serde_json::Value;

type Tool = OrchestratorTool<Vec<String>, bool, (), ()>;

fn json(text: &str) -> Value {
    serde_json::from_str(text).unwrap()
}

fn agent(system_prompt: &str) -> DelegateAgentConfig {
    DelegateAgentConfig {
        provider: "ollama".to_string(),
        model: "llama3".to_string(),
        system_prompt: Some(system_prompt.to_string()),
        api_key: None,
        max_depth: 3,
        agentic: false,
        allowed_tools: Vec::new(),
        max_iterations: 3,
        timeout_secs: None,
        agentic_timeout_secs: None,
        skills_directory: None,
        memory_namespace: None,
        allowed_skills: Vec::new(),
    }
}

fn sample_agents() -> NameTable<DelegateAgentConfig> {
    let mut agents = NameTable::new();
    agents.insert("planner".to_string(), agent("You are a planner."));
    agents.insert(
        "cron_writer".to_string(),
        DelegateAgentConfig {
            agentic: true,
            allowed_tools: vec!["cron_add".to_string()],
            ..agent("You create cron jobs.")
        },
    );
    agents
}

fn sample_orchestrations() -> NameTable<OrchestrationConfig> {
    let mut orchs = NameTable::new();
    orchs.insert(
        "scheduled_job".to_string(),
        OrchestrationConfig {
            agents: vec!["planner".to_string(), "cron_writer".to_string()],
            description: Some("Plan and create scheduled job".to_string()),
            timeout_secs: 300,
        },
    );
    orchs
}

fn make_tool(
    orchs: NameTable<OrchestrationConfig>,
    agents: NameTable<DelegateAgentConfig>,
) -> Tool {
    OrchestratorTool::new(orchs, agents, None, false, ())
}

/// A host's security policy: with `read_only` it lets nothing act.
fn enforce(read_only: bool) -> Result<(), String> {
    if read_only {
        Err("Security policy: read-only mode, cannot perform 'orchestrate'".to_string())
    } else {
        Ok(())
    }
}

/// A host that runs an orchestration to its end. `turn` plays the agents: it is given the
/// agent's name, prompt and time, and the record of tool calls.
fn run(
    tool: &Tool,
    args: &Value,
    mut turn: impl FnMut(&str, &str, u64, &mut Vec<TrackedToolCall>) -> Result<String, String>,
) -> Result<ToolResult, MissingParameter> {
    let request = match tool.execute(args)? {
        Opening::Refused(result) => return Ok(result),
        Opening::Ready(request) => request,
    };
    let mut calls = Vec::new();
    let mut step = tool.start_run(request, enforce(tool.security));
    loop {
        match step {
            PipelineStep::Finished(result) => return Ok(result),
            PipelineStep::Turn(next) => {
                let outcome = turn(
                    next.agent_name(),
                    next.agent_prompt(),
                    next.timeout_secs(),
                    &mut calls,
                );
                step = tool.agent_done(next, outcome, &calls);
            }
        }
    }
}

fn no_turn(_: &str, _: &str, _: u64, _: &mut Vec<TrackedToolCall>) -> Result<String, String> {
    panic!("no agent should run")
}

// ---- How the tool presents itself ----

#[test]
fn name_is_orchestrate() {
    let tool = make_tool(sample_orchestrations(), sample_agents());
    assert_eq!(tool.name(), "orchestrate");
}

#[test]
fn description_not_empty() {
    let tool = make_tool(sample_orchestrations(), sample_agents());
    assert!(!tool.description().is_empty());
    assert_eq!(
        tool.description(),
        "Execute a multi-agent orchestration pipeline. Agents run sequentially, \
         each passing its output to the next. Use this for tasks that require \
         multiple steps (e.g. research → test → create scheduled job)."
    );
}

#[test]
fn schema_has_required_fields() {
    let tool = make_tool(sample_orchestrations(), sample_agents());
    let schema = tool.parameters_schema();
    assert!(schema["properties"]["orchestration"].is_object());
    assert!(schema["properties"]["prompt"].is_object());
    let required = schema["required"].as_array().unwrap();
    assert!(required.contains(&Value::from("orchestration")));
    assert!(required.contains(&Value::from("prompt")));
    assert_eq!(schema["additionalProperties"], Value::from(false));
}

#[test]
fn schema_is_exact() {
    let tool = make_tool(sample_orchestrations(), sample_agents());
    assert_eq!(
        tool.parameters_schema(),
        json(
            r#"{
                "type": "object",
                "additionalProperties": false,
                "properties": {
                    "orchestration": {
                        "type": "string",
                        "minLength": 1,
                        "description": "Name of the orchestration to run. Available: scheduled_job"
                    },
                    "prompt": {
                        "type": "string",
                        "minLength": 1,
                        "description": "The task/prompt for the orchestration pipeline"
                    }
                },
                "required": ["orchestration", "prompt"]
            }"#
        )
    );
}

#[test]
fn schema_lists_orchestration_names() {
    let tool = make_tool(sample_orchestrations(), sample_agents());
    let schema = tool.parameters_schema();
    let desc = schema["properties"]["orchestration"]["description"]
        .as_str()
        .unwrap();
    assert!(desc.contains("scheduled_job"));
}

#[test]
fn schema_lists_several_names() {
    let mut orchs = sample_orchestrations();
    orchs.insert(
        "digest".to_string(),
        OrchestrationConfig {
            agents: Vec::new(),
            description: None,
            timeout_secs: 1,
        },
    );
    let schema = make_tool(orchs, sample_agents()).parameters_schema();
    assert_eq!(
        schema["properties"]["orchestration"]["description"],
        "Name of the orchestration to run. Available: scheduled_job, digest"
    );
}

#[test]
fn empty_orchestrations_schema() {
    let tool = make_tool(NameTable::new(), sample_agents());
    let schema = tool.parameters_schema();
    let desc = schema["properties"]["orchestration"]["description"]
        .as_str()
        .unwrap();
    assert!(desc.contains("none configured"));
}

// ---- Requests ----

#[test]
fn unknown_orchestration_returns_error() {
    let tool = make_tool(sample_orchestrations(), sample_agents());
    let result = run(
        &tool,
        &json(r#"{"orchestration": "nonexistent", "prompt": "test"}"#),
        no_turn,
    )
    .unwrap();
    assert!(!result.success);
    assert_eq!(result.output, "");
    let error = result.error.unwrap();
    assert!(error.contains("Unknown orchestration"));
    assert_eq!(
        error,
        "Unknown orchestration 'nonexistent'. Available: scheduled_job"
    );
}

#[test]
fn unknown_orchestration_with_none_configured() {
    let tool = make_tool(NameTable::new(), sample_agents());
    let result = run(&tool, &json(r#"{"orchestration": "x", "prompt": "y"}"#), no_turn).unwrap();
    assert_eq!(
        result.error.unwrap(),
        "Unknown orchestration 'x'. Available: (none configured)"
    );
}

#[test]
fn missing_orchestration_param() {
    let tool = make_tool(sample_orchestrations(), sample_agents());
    let result = run(&tool, &json(r#"{"prompt": "test"}"#), no_turn);
    assert!(result.is_err());
    let missing = result.unwrap_err();
    assert_eq!(missing, MissingParameter::Orchestration);
    assert_eq!(missing.message(), "Missing 'orchestration' parameter");
}

#[test]
fn missing_prompt_param() {
    let tool = make_tool(sample_orchestrations(), sample_agents());
    let result = run(&tool, &json(r#"{"orchestration": "scheduled_job"}"#), no_turn);
    assert!(result.is_err());
    let missing = result.unwrap_err();
    assert_eq!(missing, MissingParameter::Prompt);
    assert_eq!(missing.message(), "Missing 'prompt' parameter");
}

#[test]
fn parameters_of_another_type_count_as_missing() {
    let tool = make_tool(sample_orchestrations(), sample_agents());
    let number = run(&tool, &json(r#"{"orchestration": 3, "prompt": "x"}"#), no_turn);
    assert_eq!(number.unwrap_err(), MissingParameter::Orchestration);
    let array = run(&tool, &json(r#"["orchestration", "prompt"]"#), no_turn);
    assert_eq!(array.unwrap_err(), MissingParameter::Orchestration);
    let null = run(
        &tool,
        &json(r#"{"orchestration": "scheduled_job", "prompt": null}"#),
        no_turn,
    );
    assert_eq!(null.unwrap_err(), MissingParameter::Prompt);
}

#[test]
fn blank_orchestration_rejected() {
    let tool = make_tool(sample_orchestrations(), sample_agents());
    let result = run(&tool, &json(r#"{"orchestration": "  ", "prompt": "test"}"#), no_turn).unwrap();
    assert!(!result.success);
    let error = result.error.unwrap();
    assert!(error.contains("must not be empty"));
    assert_eq!(error, "'orchestration' parameter must not be empty");
}

#[test]
fn blank_orchestration_comes_before_a_missing_prompt() {
    let tool = make_tool(sample_orchestrations(), sample_agents());
    let result = run(&tool, &json(r#"{"orchestration": "　\t"}"#), no_turn).unwrap();
    assert_eq!(
        result.error.unwrap(),
        "'orchestration' parameter must not be empty"
    );
}

#[test]
fn blank_prompt_rejected() {
    let tool = make_tool(sample_orchestrations(), sample_agents());
    let result = run(
        &tool,
        &json(r#"{"orchestration": "scheduled_job", "prompt": "  "}"#),
        no_turn,
    )
    .unwrap();
    assert!(!result.success);
    let error = result.error.unwrap();
    assert!(error.contains("must not be empty"));
    assert_eq!(error, "'prompt' parameter must not be empty");
}

#[test]
fn white_space_around_parameters_is_ignored() {
    let tool = make_tool(sample_orchestrations(), sample_agents());
    let mut prompts = Vec::new();
    let result = run(
        &tool,
        &json(r#"{"orchestration": "\u0085\tscheduled_job ", "prompt": " do it\n "}"#),
        |_, prompt, _, _| {
            prompts.push(prompt.to_string());
            Ok("done".to_string())
        },
    )
    .unwrap();
    assert!(result.success);
    assert_eq!(prompts[0], "do it");
    // A zero-width space is no white space.
    let result = run(
        &tool,
        &json(r#"{"orchestration": "​scheduled_job", "prompt": "x"}"#),
        no_turn,
    )
    .unwrap();
    assert!(result.error.unwrap().contains("Unknown orchestration"));
}

#[test]
fn orchestration_with_empty_agents_returns_error() {
    let mut orchs = NameTable::new();
    orchs.insert(
        "empty".to_string(),
        OrchestrationConfig {
            agents: Vec::new(),
            description: None,
            timeout_secs: 60,
        },
    );
    let tool = make_tool(orchs, sample_agents());
    let result = run(
        &tool,
        &json(r#"{"orchestration": "empty", "prompt": "test"}"#),
        no_turn,
    )
    .unwrap();
    assert!(!result.success);
    let error = result.error.unwrap();
    assert!(error.contains("no agents configured"));
    assert_eq!(error, "Orchestration 'empty' has no agents configured");
}

#[test]
fn orchestration_with_unknown_agent_returns_error() {
    let mut orchs = NameTable::new();
    orchs.insert(
        "broken".to_string(),
        OrchestrationConfig {
            agents: vec!["nonexistent_agent".to_string()],
            description: None,
            timeout_secs: 60,
        },
    );
    let tool = make_tool(orchs, sample_agents());
    let result = run(
        &tool,
        &json(r#"{"orchestration": "broken", "prompt": "test"}"#),
        no_turn,
    )
    .unwrap();
    assert!(!result.success);
    let error = result.error.unwrap();
    assert!(error.contains("unknown agent"));
    assert_eq!(
        error,
        "Orchestration 'broken' references unknown agent 'nonexistent_agent'"
    );
    let report = json(&result.output);
    assert_eq!(
        report["response"],
        "Unknown agent 'nonexistent_agent' in orchestration 'broken'"
    );
    assert_eq!(report[ORCHESTRATED_CALLS_KEY], json("[]"));
}

#[test]
fn orchestration_blocked_in_readonly_mode() {
    let tool: Tool = OrchestratorTool::new(
        sample_orchestrations(),
        sample_agents(),
        None,
        true,
        (),
    );
    let result = run(
        &tool,
        &json(r#"{"orchestration": "scheduled_job", "prompt": "test"}"#),
        no_turn,
    )
    .unwrap();
    assert!(!result.success);
    assert_eq!(result.output, "");
    assert!(result
        .error
        .as_deref()
        .unwrap_or("")
        .contains("read-only mode"));
}

#[test]
fn requests_are_checked_before_the_policy() {
    let tool: Tool = OrchestratorTool::new(NameTable::new(), sample_agents(), None, true, ());
    let result = run(&tool, &json(r#"{"orchestration": "x", "prompt": "y"}"#), no_turn).unwrap();
    assert!(result.error.unwrap().contains("Unknown orchestration"));
}

// ---- Runs ----

#[test]
fn agents_run_in_order_and_hand_on_their_output() {
    let tool = make_tool(sample_orchestrations(), sample_agents());
    let mut seen = Vec::new();
    let result = run(
        &tool,
        &json(r#"{"orchestration": "scheduled_job", "prompt": "remind me"}"#),
        |name, prompt, secs, calls| {
            seen.push((name.to_string(), prompt.to_string(), secs));
            if name == "cron_writer" {
                let done: Result<ToolResult, String> = Ok(ToolResult {
                    success: true,
                    output: "job 7".to_string(),
                    error: None,
                });
                track_call(calls, "cron_add", json(r#"{"every": "1h"}"#), done, "").unwrap();
            }
            Ok(format!("output of {name}"))
        },
    )
    .unwrap();
    assert_eq!(
        seen,
        vec![
            ("planner".to_string(), "remind me".to_string(), 150),
            (
                "cron_writer".to_string(),
                "[Previous step result]\noutput of planner\n\n[Original task]\nremind me"
                    .to_string(),
                150
            ),
        ]
    );
    assert!(result.success);
    assert!(result.error.is_none());
    assert_eq!(
        result.output,
        "{\"__orchestrated_tool_calls\":[{\"args\":{\"every\":\"1h\"},\"name\":\"cron_add\",\
         \"result\":\"job 7\",\"success\":true}],\"response\":\"output of cron_writer\"}"
    );
}

#[test]
fn first_failure_ends_the_run_and_keeps_the_calls() {
    let tool = make_tool(sample_orchestrations(), sample_agents());
    let mut turns = 0;
    let result = run(
        &tool,
        &json(r#"{"orchestration": "scheduled_job", "prompt": "x"}"#),
        |_, _, _, calls| {
            turns += 1;
            let done: Result<ToolResult, String> = Ok(ToolResult {
                success: false,
                output: "denied".to_string(),
                error: Some("no".to_string()),
            });
            track_call(calls, "shell", json("[1, 2.5, null]"), done, "").unwrap();
            Err("it broke".to_string())
        },
    )
    .unwrap();
    assert_eq!(turns, 1);
    assert!(!result.success);
    assert_eq!(result.error.unwrap(), "it broke");
    assert_eq!(
        json(&result.output),
        json(
            r#"{
                "response": "Failed at agent 'planner': it broke",
                "__orchestrated_tool_calls": [
                    {"name": "shell", "args": [1, 2.5, null], "result": "denied", "success": false}
                ]
            }"#
        )
    );
}

#[test]
fn unknown_agent_is_found_when_its_turn_comes() {
    let mut orchs = NameTable::new();
    orchs.insert(
        "half".to_string(),
        OrchestrationConfig {
            agents: vec!["planner".to_string(), "ghost".to_string()],
            description: None,
            timeout_secs: 7,
        },
    );
    let tool = make_tool(orchs, sample_agents());
    let mut names = Vec::new();
    let result = run(
        &tool,
        &json(r#"{"orchestration": "half", "prompt": "x"}"#),
        |name, _, secs, _| {
            names.push((name.to_string(), secs));
            Ok("plan".to_string())
        },
    )
    .unwrap();
    assert_eq!(names, vec![("planner".to_string(), 3)]);
    assert!(!result.success);
    assert_eq!(
        result.error.unwrap(),
        "Orchestration 'half' references unknown agent 'ghost'"
    );
}

#[test]
fn sequential_invalid_provider_returns_error() {
    let tool = make_tool(sample_orchestrations(), sample_agents());
    // The host fails to create the provider of the first agent.
    let result = run(
        &tool,
        &json(r#"{"orchestration": "scheduled_job", "prompt": "test"}"#),
        |name, prompt, secs, _| {
            let config = tool.agents.get(name).unwrap();
            let created: Result<(), String> = Err("connection refused".to_string());
            match tool.execute_agent(name, config, prompt, secs, &tool.parent_tools, created) {
                AgentStep::Finished(outcome) => outcome,
                AgentStep::Chat(_, _, pending) => pending.finish(Reply::TimedOut),
                AgentStep::Prepare(_, _) => panic!("an agent without a provider was prepared"),
            }
        },
    )
    .unwrap();
    assert!(!result.success);
    assert_eq!(
        result.error.unwrap(),
        "Failed to create provider 'ollama' for agent 'planner': connection refused"
    );
}

// ---- The table ----

#[test]
fn table_keeps_order_and_replaces() {
    let mut table = NameTable::new();
    assert!(table.get("a").is_none());
    table.insert("b".to_string(), 1);
    table.insert("a".to_string(), 2);
    table.insert("b".to_string(), 3);
    assert_eq!(table.get("a"), Some(&2));
    assert_eq!(table.get("b"), Some(&3));
    assert!(table.get("c").is_none());
    assert_eq!(table.names(), vec!["b".to_string(), "a".to_string()]);
}

#[test]
fn builders_set_one_thing_each() {
    let tool: OrchestratorTool<Vec<String>, bool, u8, Option<u8>> =
        OrchestratorTool::new(NameTable::new(), NameTable::new(), Some("k".to_string()), true, 9);
    assert!(tool.parent_tools.is_empty());
    assert_eq!(tool.multimodal_config, None);
    assert_eq!(tool.workspace_dir, std::path::PathBuf::new());
    assert_eq!(tool.delegate_config.agentic_timeout_secs, 300);
    let config = orchestrator::config::DelegateToolConfig {
        timeout_secs: 1,
        agentic_timeout_secs: 2,
    };
    let tool = tool
        .with_parent_tools(vec!["shell".to_string()])
        .with_multimodal_config(Some(4))
        .with_delegate_config(config)
        .with_workspace_dir(std::path::PathBuf::from("/work"));
    assert_eq!(tool.parent_tools, vec!["shell".to_string()]);
    assert_eq!(tool.multimodal_config, Some(4));
    assert_eq!(tool.delegate_config.timeout_secs, 1);
    assert_eq!(tool.delegate_config.agentic_timeout_secs, 2);
    assert_eq!(tool.workspace_dir, std::path::PathBuf::from("/work"));
    assert_eq!(tool.fallback_credential.as_deref(), Some("k"));
    assert!(tool.security);
    assert_eq!(tool.provider_runtime_options, 9);
    let agents = sample_agents();
    let request = tool.provider_request(agents.get("planner").unwrap());
    assert_eq!(request.provider, "ollama");
    assert_eq!(*request.options, 9);
    assert_eq!(request.credential, Some("k"));
}
