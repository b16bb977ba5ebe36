use orchestrator::agent::{AgentStep, ChatMessage, PendingReply, Reply};
use orchestrator::config::{DelegateAgentConfig, DelegateToolConfig, ToolResult};
use orchestrator::orchestrator::OrchestratorTool;
use orchestrator::prompt::{
    build_enriched_system_prompt, prompt_sections, PromptExtras, PromptSection, SkillRequest,
    SkillSource, SkillsPromptInjectionMode, SHELL_POLICY,
};
use orchestrator::table::NameTable;
use orchestrator::text::{contains_text, decimal, join, same_text};
use orchestrator::tracking::{
    track_call, TrackedToolCall, TrackingToolWrapper, ORCHESTRATED_CALLS_KEY,
};
use serde_json::Value;
use std::path::PathBuf;

type Tool = OrchestratorTool<Vec<String>, (), (), ()>;

fn json(text: &str) -> Value {
    serde_json::from_str(text).unwrap()
}

fn strings(list: &[&str]) -> Vec<String> {
    list.iter().map(|s| s.to_string()).collect()
}

fn tool() -> Tool {
    OrchestratorTool::new(NameTable::new(), NameTable::new(), None, (), ())
}

fn agent(allowed_tools: &[&str]) -> DelegateAgentConfig {
    DelegateAgentConfig {
        provider: "test".to_string(),
        model: "test".to_string(),
        system_prompt: None,
        api_key: None,
        max_depth: 3,
        agentic: true,
        allowed_tools: strings(allowed_tools),
        max_iterations: 3,
        timeout_secs: None,
        agentic_timeout_secs: None,
        skills_directory: None,
        memory_namespace: None,
        allowed_skills: Vec::new(),
    }
}

// ---- Tracking ----

#[test]
fn tracking_wrapper_records_calls() {
    let mut calls: Vec<TrackedToolCall> = Vec::new();
    let wrapped = TrackingToolWrapper::new(0, "dummy".to_string());
    assert_eq!(wrapped.name(), "dummy");
    assert_eq!(wrapped.inner, 0);

    let outcome: Result<ToolResult, String> = Ok(ToolResult {
        success: true,
        output: "dummy result".to_string(),
        error: None,
    });
    let result = wrapped
        .execute(&mut calls, json(r#"{"key": "value"}"#), outcome, "")
        .unwrap();
    assert!(result.success);
    assert_eq!(result.output, "dummy result");

    assert_eq!(calls.len(), 1);
    assert_eq!(calls[0].name, "dummy");
    assert_eq!(calls[0].args, json(r#"{"key": "value"}"#));
    assert_eq!(calls[0].result, "dummy result");
    assert!(calls[0].success);
}

#[test]
fn tracking_wrapper_records_multiple_calls() {
    let mut calls: Vec<TrackedToolCall> = Vec::new();
    let wrapped = TrackingToolWrapper::new(0, "counter".to_string());
    for (n, args) in [r#"{"a": 1}"#, r#"{"b": 2}"#, r#"{"c": 3}"#].iter().enumerate() {
        let outcome: Result<ToolResult, String> = Ok(ToolResult {
            success: true,
            output: format!("call #{n}"),
            error: None,
        });
        wrapped.execute(&mut calls, json(args), outcome, "").unwrap();
    }
    assert_eq!(calls.len(), 3);
    assert_eq!(calls[0].result, "call #0");
    assert_eq!(calls[1].result, "call #1");
    assert_eq!(calls[2].result, "call #2");
}

#[test]
fn tracking_wrapper_records_failed_tool() {
    let mut calls: Vec<TrackedToolCall> = Vec::new();
    let wrapped = TrackingToolWrapper::new(0, "fail".to_string());
    let outcome: Result<ToolResult, String> = Ok(ToolResult {
        success: false,
        output: "error occurred".to_string(),
        error: Some("something broke".to_string()),
    });
    let result = wrapped.execute(&mut calls, json("{}"), outcome, "").unwrap();
    assert!(!result.success);
    assert_eq!(result.error.unwrap(), "something broke");

    assert_eq!(calls.len(), 1);
    assert!(!calls[0].success);
    assert_eq!(calls[0].result, "error occurred");
}

#[test]
fn a_call_that_could_not_be_carried_out_is_recorded_too() {
    let mut calls: Vec<TrackedToolCall> = Vec::new();
    let outcome: Result<ToolResult, u8> = Err(7);
    let args = json(r#"{"url": "x"}"#);
    let result = track_call(&mut calls, "web_fetch", args, outcome, "no such host");
    assert_eq!(result.unwrap_err(), 7);
    assert_eq!(calls.len(), 1);
    assert_eq!(calls[0].name, "web_fetch");
    assert_eq!(calls[0].args, json(r#"{"url": "x"}"#));
    assert_eq!(calls[0].result, "no such host");
    assert!(!calls[0].success);
}

#[test]
fn tools_of_a_run_share_one_record() {
    let parent_tools = strings(&["shell", "web_fetch"]);
    let tools = tool().create_tracked_tools(&agent(&["web_fetch", "shell"]), &parent_tools);
    let mut calls: Vec<TrackedToolCall> = Vec::new();
    for (n, k) in [1, 0, 1].iter().enumerate() {
        let outcome: Result<ToolResult, String> = if n == 1 {
            Err("gone".to_string())
        } else {
            Ok(ToolResult {
                success: true,
                output: format!("{n}"),
                error: None,
            })
        };
        let _ = tools[*k].execute(&mut calls, json("{}"), outcome, "gone");
    }
    let seen: Vec<(&str, &str, bool)> = calls
        .iter()
        .map(|c| (c.name.as_str(), c.result.as_str(), c.success))
        .collect();
    assert_eq!(
        seen,
        vec![("web_fetch", "0", true), ("shell", "gone", false), ("web_fetch", "2", true)]
    );
}

#[test]
fn orchestrated_calls_key_is_consistent() {
    assert_eq!(ORCHESTRATED_CALLS_KEY, "__orchestrated_tool_calls");
}

#[test]
fn report_holds_every_call() {
    let mut calls: Vec<TrackedToolCall> = Vec::new();
    for name in ["one", "two"] {
        let outcome: Result<ToolResult, String> = Ok(ToolResult {
            success: name == "one",
            output: format!("\"{name}\"\n"),
            error: None,
        });
        track_call(&mut calls, name, json(r#"{"deep": [[], {"x": -1}]}"#), outcome, "").unwrap();
    }
    let value = orchestrator::tracking::report_value("all \"done\"".to_string(), &calls);
    let expected = json(
        r#"{
            "response": "all \"done\"",
            "__orchestrated_tool_calls": [
                {"name": "one", "args": {"deep": [[], {"x": -1}]}, "result": "\"one\"\n", "success": true},
                {"name": "two", "args": {"deep": [[], {"x": -1}]}, "result": "\"two\"\n", "success": false}
            ]
        }"#,
    );
    assert_eq!(value, expected);
    let text = orchestrator::tracking::report("all \"done\"".to_string(), &calls);
    assert_eq!(json(&text), expected);
}

// ---- An agent's tools ----

#[test]
fn create_tracked_tools_filters_by_allowed() {
    let parent_tools = strings(&["shell", "http_request", "cron_add", "delegate", "orchestrate"]);
    let tool = tool().with_parent_tools(parent_tools);
    let picked = tool.create_tracked_tools(&agent(&["shell", "cron_add"]), &tool.parent_tools);

    // Should have shell + cron_add (NOT delegate, orchestrate, or http_request)
    let names: Vec<&str> = picked.iter().map(|t| t.name()).collect();
    assert_eq!(names.len(), 2);
    assert!(names.contains(&"shell"));
    assert!(names.contains(&"cron_add"));
    assert!(!names.contains(&"delegate"));
    assert!(!names.contains(&"orchestrate"));
    assert!(!names.contains(&"http_request"));
}

#[test]
fn no_agent_gets_a_tool_that_starts_agents() {
    let parent_tools = strings(&["delegate", "shell", "orchestrate", "shell", ""]);
    let config = agent(&["orchestrate", " shell\t", "delegate", "  ", ""]);
    assert_eq!(
        tool().create_tracked_tools(&config, &parent_tools),
        vec![
            TrackingToolWrapper::new(1, "shell".to_string()),
            TrackingToolWrapper::new(3, "shell".to_string()),
        ]
    );
    assert!(tool().create_tracked_tools(&agent(&[" ", ""]), &parent_tools).is_empty());
    // The parent's names are taken as they are.
    let others = strings(&[" shell", "Shell"]);
    assert!(tool().create_tracked_tools(&agent(&["shell"]), &others).is_empty());
}

#[test]
fn a_tool_that_is_added_later_is_seen() {
    let tool = tool().with_parent_tools(strings(&["shell"]));
    let config = agent(&["shell", "cron_add"]);
    assert_eq!(tool.create_tracked_tools(&config, &tool.parent_tools).len(), 1);
    let mut now = tool.parent_tools.clone();
    now.push("cron_add".to_string());
    let picked = tool.create_tracked_tools(&config, &now);
    assert_eq!(picked.len(), 2);
    assert_eq!(picked[1], TrackingToolWrapper::new(1, "cron_add".to_string()));
}

// ---- Providers ----

#[test]
fn own_credential_comes_before_the_fallback() {
    let plain = tool();
    assert_eq!(plain.provider_request(&agent(&[])).credential, None);
    let tool: Tool = OrchestratorTool::new(
        NameTable::new(),
        NameTable::new(),
        Some("shared".to_string()),
        (),
        (),
    );
    let request = tool.provider_request(&agent(&[])).credential.map(str::to_string);
    assert_eq!(request.as_deref(), Some("shared"));
    let config = DelegateAgentConfig {
        api_key: Some("own".to_string()),
        ..agent(&[])
    };
    let request = tool.provider_request(&config);
    assert_eq!(request.provider, "test");
    assert_eq!(request.credential, Some("own"));
}

#[test]
fn provider_is_handed_on_or_its_failure_told() {
    let made = tool().create_provider_for_agent(&agent(&[]), "a", Ok(5));
    assert_eq!(made.unwrap(), 5);
    let failed: Result<u8, String> = Err("bad key".to_string());
    let result = tool().create_provider_for_agent(&agent(&[]), "a", failed).unwrap_err();
    assert!(!result.success);
    assert_eq!(result.output, "");
    assert_eq!(
        result.error.unwrap(),
        "Failed to create provider 'test' for agent 'a': bad key"
    );
}

// ---- An agent's turn ----

#[test]
fn agent_without_tools_is_asked_once() {
    let parent_tools = strings(&["shell"]);
    let set_up = DelegateAgentConfig {
        agentic: false,
        system_prompt: Some("  Be brief. ".to_string()),
        ..agent(&["shell"])
    };
    let got_none = agent(&["web_fetch"]);
    let tool = tool();
    match tool.execute_agent("a", &set_up, "p", 50, &parent_tools, Ok("a provider")) {
        AgentStep::Chat(provider, request, pending) => {
            assert_eq!(provider, "a provider");
            assert_eq!(request.system_prompt, Some("  Be brief. "));
            assert_eq!(request.prompt, "p");
            assert_eq!(request.model, "test");
            assert_eq!(request.timeout_secs, 50);
            assert_eq!(
                pending.finish(Reply::TimedOut).unwrap_err(),
                "Agent 'a' timed out after 50s"
            );
        }
        _ => panic!("expected a chat"),
    }
    match tool.execute_agent("a", &got_none, "p", 50, &parent_tools, Ok(())) {
        AgentStep::Chat(_, request, _) => assert_eq!(request.system_prompt, None),
        _ => panic!("expected a chat"),
    }
}

#[test]
fn agent_with_tools_runs_a_loop() {
    let parent_tools = strings(&["cron_add", "http_request", "shell"]);
    let config = DelegateAgentConfig {
        system_prompt: Some("Be careful.".to_string()),
        allowed_skills: strings(&["browser", "scheduled-jobs"]),
        skills_directory: Some("team/skills".to_string()),
        max_iterations: 11,
        ..agent(&["shell", "cron_add"])
    };
    let tool: OrchestratorTool<Vec<String>, (), (), &str> =
        OrchestratorTool::new(NameTable::new(), NameTable::new(), None, (), ())
            .with_multimodal_config("pictures")
            .with_workspace_dir(PathBuf::from("/work"));
    let pending = match tool.execute_agent("a", &config, "the task", 400, &parent_tools, Ok(())) {
        AgentStep::Prepare(_, pending) => pending,
        _ => panic!("expected a run with tools"),
    };
    assert_eq!(
        pending.skill_request(),
        Some(SkillRequest {
            source: SkillSource::Directory("team/skills".to_string()),
            allow_scripts: false,
        })
    );
    let plan = pending.plan_prompt(&strings(&["scheduled-jobs", "file-org", "browser", "Browser"]));
    assert_eq!(plan.skills, vec![0, 2]);
    assert_eq!(
        plan.sections,
        vec![
            PromptSection::Tools,
            PromptSection::Safety,
            PromptSection::DateTime,
            PromptSection::Skills
        ]
    );
    assert_eq!(*plan.workspace_dir, PathBuf::from("/work"));
    assert_eq!(plan.model, "test");
    assert_eq!(
        *plan.sub_tools,
        vec![
            TrackingToolWrapper::new(0, "cron_add".to_string()),
            TrackingToolWrapper::new(2, "shell".to_string()),
        ]
    );
    assert_eq!(plan.skills_prompt_mode, SkillsPromptInjectionMode::Full);
    assert_eq!(plan.dispatcher_instructions, "");
    assert_eq!(
        plan.extras,
        PromptExtras {
            identity: false,
            tool_descriptions: false,
            security_summary: false,
            autonomy_level: false,
        }
    );
    let (request, reply) = pending.complete(Some("\n# Tools\n\n".to_string()));
    assert_eq!(
        request.history,
        vec![
            ChatMessage::System(format!("# Tools\n\n{SHELL_POLICY}\n\nBe careful.")),
            ChatMessage::User("the task".to_string()),
        ]
    );
    let names: Vec<&str> = request.sub_tools.iter().map(|t| t.name()).collect();
    assert_eq!(names, vec!["cron_add", "shell"]);
    assert_eq!(request.sub_tools[1].inner, 2);
    assert_eq!(*request.multimodal, "pictures");
    assert!(request.excluded_tools.is_empty());
    assert!(request.dedup_exempt_tools.is_empty());
    assert!(!request.extras.observed);
    assert!(!request.extras.approval);
    assert!(!request.extras.cancellation);
    assert!(!request.extras.hooks);
    assert_eq!(request.provider, "test");
    assert_eq!(request.model, "test");
    assert!(request.silent);
    assert_eq!(request.channel, "orchestrate");
    assert_eq!(request.max_iterations, 11);
    assert_eq!(request.max_tool_result_chars, 20000);
    assert_eq!(request.context_token_budget, 0);
    assert_eq!(request.timeout_secs, 300);
    assert_eq!(
        reply.finish(Reply::TimedOut).unwrap_err(),
        "Agent 'a' timed out after 300s"
    );
}

#[test]
fn time_of_a_run_with_tools_is_bounded() {
    let parent_tools = strings(&["shell"]);
    let own = DelegateAgentConfig {
        agentic_timeout_secs: Some(20),
        ..agent(&["shell"])
    };
    let tool = tool().with_delegate_config(DelegateToolConfig {
        timeout_secs: 1,
        agentic_timeout_secs: 90,
    });
    let secs = |config: &DelegateAgentConfig, share: u64| -> u64 {
        match tool.execute_agent("a", config, "p", share, &parent_tools, Ok(())) {
            AgentStep::Prepare(_, pending) => pending.timeout_secs,
            _ => panic!("expected a run with tools"),
        }
    };
    assert_eq!(secs(&own, 100), 20);
    assert_eq!(secs(&own, 5), 5);
    assert_eq!(secs(&agent(&["shell"]), 100), 90);
    assert_eq!(secs(&agent(&["shell"]), 90), 90);
    assert_eq!(secs(&agent(&["shell"]), 0), 0);
}

#[test]
fn agent_without_a_system_prompt_starts_with_the_task() {
    let parent_tools = strings(&["cron_add"]);
    let config = agent(&["cron_add"]);
    let tool = tool();
    match tool.execute_agent("a", &config, "go", 9, &parent_tools, Ok(())) {
        AgentStep::Prepare(_, pending) => {
            assert!(!pending.has_shell);
            assert_eq!(pending.skill_request(), None);
            let plan = pending.plan_prompt(&Vec::new());
            assert!(plan.skills.is_empty());
            assert_eq!(plan.sections.len(), 3);
            let (request, _) = pending.complete(None);
            assert_eq!(request.history, vec![ChatMessage::User("go".to_string())]);
        }
        _ => panic!("expected a run with tools"),
    }
}

#[test]
fn replies_become_outcomes() {
    let pending = || PendingReply {
        agent_name: "writer",
        timeout_secs: 1050,
    };
    assert_eq!(pending().finish(Reply::Answered(" hi ".to_string())).unwrap(), " hi ");
    assert_eq!(
        pending().finish(Reply::Answered(" \n\t".to_string())).unwrap(),
        "[Empty response]"
    );
    assert_eq!(
        pending().finish(Reply::Answered(String::new())).unwrap(),
        "[Empty response]"
    );
    assert_eq!(
        pending().finish(Reply::Failed("429".to_string())).unwrap_err(),
        "Agent 'writer' failed: 429"
    );
    assert_eq!(
        pending().finish(Reply::TimedOut).unwrap_err(),
        "Agent 'writer' timed out after 1050s"
    );
}

// ---- System prompts ----

#[test]
fn skills_come_from_where_the_agent_says() {
    let source = |directory: Option<&str>, skills: &[&str]| {
        orchestrator::prompt::skill_request(&DelegateAgentConfig {
            skills_directory: directory.map(str::to_string),
            allowed_skills: strings(skills),
            ..agent(&[])
        })
        .map(|request| {
            assert!(!request.allow_scripts);
            request.source
        })
    };
    assert_eq!(source(Some("d"), &[]), None);
    assert_eq!(source(None, &["s"]), Some(SkillSource::Workspace));
    assert_eq!(source(Some("  "), &["s"]), Some(SkillSource::Workspace));
    assert_eq!(
        source(Some(" d "), &["s"]),
        Some(SkillSource::Directory(" d ".to_string()))
    );
}

#[test]
fn sections_have_skills_only_where_there_are_some() {
    assert!(prompt_sections(true).contains(&PromptSection::Skills));
    assert!(!prompt_sections(false).contains(&PromptSection::Skills));
}

#[test]
fn system_prompt_is_put_together() {
    let with = |text: Option<&str>| DelegateAgentConfig {
        system_prompt: text.map(str::to_string),
        ..agent(&[])
    };
    assert_eq!(build_enriched_system_prompt(&with(None), false, None), None);
    assert_eq!(
        build_enriched_system_prompt(&with(Some(" \n")), false, Some("  ".to_string())),
        None
    );
    assert_eq!(
        build_enriched_system_prompt(&with(None), true, None).unwrap(),
        "## Shell Policy\n\n\
         - Prefer non-destructive commands. Use `trash` over `rm` where possible.\n\
         - Do not run commands that exfiltrate data or modify system-critical paths.\n\
         - Avoid interactive commands that block on stdin.\n\
         - Quote paths that may contain spaces."
    );
    assert_eq!(
        build_enriched_system_prompt(&with(Some("op ")), false, Some(" a\n\n".to_string())).unwrap(),
        "a\n\nop"
    );
}

#[test]
fn system_prompt_ends_with_the_operators() {
    let config = DelegateAgentConfig {
        system_prompt: Some("  op \n ".to_string()),
        ..agent(&[])
    };
    let prompt = |rendered: Option<&str>, has_shell: bool| {
        build_enriched_system_prompt(&config, has_shell, rendered.map(str::to_string)).unwrap()
    };
    assert_eq!(prompt(None, false), "op");
    assert_eq!(prompt(Some(" \n"), false), "op");
    assert_eq!(prompt(Some("\n a\n"), false), "a\n  op");
    assert_eq!(prompt(Some("\n"), true), format!("{SHELL_POLICY}\n\n  op"));
}

// ---- Text ----

#[test]
fn numbers_are_written_in_decimal() {
    assert_eq!(decimal(0), "0");
    assert_eq!(decimal(907), "907");
    assert_eq!(decimal(u64::MAX), u64::MAX.to_string());
}

#[test]
fn lists_of_strings() {
    assert_eq!(join(&Vec::new(), ", "), "");
    assert_eq!(join(&strings(&["a"]), ", "), "a");
    assert_eq!(join(&strings(&["a", "", "c"]), ", "), "a, , c");
    assert!(contains_text(&strings(&["a", "é"]), "é"));
    assert!(!contains_text(&strings(&["a", "b"]), "ab"));
    assert!(same_text("x", "x"));
    assert!(!same_text("x", "x "));
}
