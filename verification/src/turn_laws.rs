//! What an agent's turn is made of, by what is given and what comes back.
//!
//! A law here holds of every call: what was given and what came back are its parameters.

use vstd::prelude::*;

use crate::agent::{
    messages_view, AgentStep, ChatMessage, PendingPrompt, PendingReply, PromptPlan, Reply,
    ToolLoopRequest,
};
use crate::config::{DelegateAgentConfig, ToolResult};
use crate::laws::{law_blank_iff_trimmed_away, law_shell_policy_is_given, law_trimmed};
use crate::operations::lemma_skills;
use crate::orchestrator::{OrchestratorTool, ProviderRequest};
use crate::prompt::{
    build_enriched_system_prompt, full_prompt, prompt_sections, rendered_or_empty, skill_request,
    PromptSection, SkillRequest, SkillSource, SkillsPromptInjectionMode,
    SHELL_POLICY,
};
use crate::selection::{lemma_positions, may_use_tool, tracked_tools, usable_tools};
use crate::text::{decimal, is_blank, is_white_space, occurs_in, opt_text, texts, trimmed};
use crate::tracking::{wrappers_view, TrackingToolWrapper};

verus! {

broadcast use vstd::string::group_string_axioms;

// ---- The tools of an agent ----

/// These are an agent's tools: of the parent's tools those that are on the agent's list, save
/// for white space around the entry, all of them, each under its name, in the parent's
/// order; but none without a name, and neither of the two that start agents.
pub open spec fn are_tools_of(
    r: Seq<TrackingToolWrapper>,
    parent_tools: Seq<String>,
    allowed: Seq<String>,
) -> bool {
    &&& forall|i: int, j: int|
        0 <= i < parent_tools.len() && 0 <= j < allowed.len() && trimmed(#[trigger] allowed[j]@)
            == (#[trigger] parent_tools[i])@ && parent_tools[i]@.len() > 0 && parent_tools[i]@
            != "delegate"@ && parent_tools[i]@ != "orchestrate"@ ==> exists|k: int|
            0 <= k < r.len() && (#[trigger] r[k]).inner == i
    &&& forall|k: int|
        0 <= k < r.len() ==> {
            let i = (#[trigger] r[k]).inner as int;
            &&& i < parent_tools.len()
            &&& r[k].name@ == parent_tools[i]@
            &&& r[k].name@.len() > 0
            &&& r[k].name@ != "delegate"@
            &&& r[k].name@ != "orchestrate"@
            &&& exists|j: int|
                0 <= j < allowed.len() && trimmed(#[trigger] allowed[j]@) == r[k].name@
        }
    &&& forall|j: int, k: int|
        0 <= j < k < r.len() ==> (#[trigger] r[j]).inner < (#[trigger] r[k]).inner
}

proof fn lemma_tracked_tools(
    r: Seq<TrackingToolWrapper>,
    parent_tools: Seq<String>,
    allowed: Seq<String>,
)
    requires
        wrappers_view(r) == tracked_tools(texts(parent_tools), texts(allowed)),
    ensures
        are_tools_of(r, parent_tools, allowed),
{
    let names = texts(parent_tools);
    let list = texts(allowed);
    let picked = usable_tools(names, list);
    let given_out = tracked_tools(names, list);
    lemma_positions(names, |tool: Seq<char>| may_use_tool(list, tool));
    assert(picked.len() == given_out.len());
    assert(wrappers_view(r).len() == r.len());
    assert forall|k: int| 0 <= k < r.len() implies (#[trigger] r[k]).inner == picked[k]
        && r[k].name@ == names[picked[k]] by {
        assert(wrappers_view(r)[k] == r[k]@);
        assert(given_out[k].inner == picked[k]);
    }
    assert forall|i: int, j: int|
        0 <= i < parent_tools.len() && 0 <= j < allowed.len() && trimmed(#[trigger] allowed[j]@)
            == (#[trigger] parent_tools[i])@ && parent_tools[i]@.len() > 0 && parent_tools[i]@
            != "delegate"@ && parent_tools[i]@ != "orchestrate"@ implies exists|k: int|
        0 <= k < r.len() && (#[trigger] r[k]).inner == i by {
        assert(names[i] == parent_tools[i]@);
        assert(trimmed(list[j]) == names[i]);
        assert(may_use_tool(list, names[i]));
        assert(picked.contains(i));
        let k: int = choose|k: int| 0 <= k < picked.len() && picked[k] == i;
        assert(r[k].inner == i);
    }
    assert forall|k: int| 0 <= k < r.len() implies ({
        let i = (#[trigger] r[k]).inner as int;
        &&& i < parent_tools.len()
        &&& r[k].name@ == parent_tools[i]@
        &&& r[k].name@.len() > 0
        &&& r[k].name@ != "delegate"@
        &&& r[k].name@ != "orchestrate"@
        &&& exists|j: int| 0 <= j < allowed.len() && trimmed(#[trigger] allowed[j]@) == r[k].name@
    }) by {
        let i = r[k].inner as int;
        assert(names[i] == parent_tools[i]@);
        assert(may_use_tool(list, names[i]));
        let j: int = choose|j: int| 0 <= j < list.len() && #[trigger] trimmed(list[j]) == names[i];
        assert(list[j] == allowed[j]@);
    }
}

/// An agent gets the parent's tools that are on its list, save for white space around the
/// entry: each of them, and no others, in the parent's order and under the parent's names.
/// The two that start agents it does not get, nor one without a name.
pub proof fn law_create_tracked_tools<T, S, R, M>(
    tool: &OrchestratorTool<T, S, R, M>,
    agent_config: &DelegateAgentConfig,
    parent_tools: &Vec<String>,
    r: Vec<TrackingToolWrapper>,
)
    requires
        call_ensures(
            OrchestratorTool::<T, S, R, M>::create_tracked_tools,
            (tool, agent_config, parent_tools),
            r,
        ),
    ensures
        forall|i: int, j: int|
            0 <= i < parent_tools@.len() && 0 <= j < agent_config.allowed_tools@.len() && trimmed(
                #[trigger] agent_config.allowed_tools@[j]@,
            ) == (#[trigger] parent_tools@[i])@ && parent_tools@[i]@.len() > 0 && parent_tools@[i]@
                != "delegate"@ && parent_tools@[i]@ != "orchestrate"@ ==> exists|k: int|
                0 <= k < r@.len() && (#[trigger] r@[k]).inner == i,
        forall|k: int|
            0 <= k < r@.len() ==> {
                let i = (#[trigger] r@[k]).inner as int;
                &&& i < parent_tools@.len()
                &&& r@[k].name@ == parent_tools@[i]@
                &&& r@[k].name@.len() > 0
                &&& r@[k].name@ != "delegate"@
                &&& r@[k].name@ != "orchestrate"@
                &&& exists|j: int|
                    0 <= j < agent_config.allowed_tools@.len() && trimmed(
                        #[trigger] agent_config.allowed_tools@[j]@,
                    ) == r@[k].name@
            },
        forall|j: int, k: int|
            0 <= j < k < r@.len() ==> (#[trigger] r@[j]).inner < (#[trigger] r@[k]).inner,
{
    lemma_tracked_tools(r@, parent_tools@, agent_config.allowed_tools@);
}

// ---- Providers ----

/// A provider is asked for by its name, with the agent's own credential, where it has none
/// with the tool's, where there is none either without; and with the tool's options.
pub proof fn law_provider_request<T, S, R, M>(
    tool: &OrchestratorTool<T, S, R, M>,
    agent_config: &DelegateAgentConfig,
    r: ProviderRequest<R>,
)
    requires
        call_ensures(OrchestratorTool::<T, S, R, M>::provider_request, (tool, agent_config), r),
    ensures
        r.provider@ == agent_config.provider@,
        *r.options == tool.provider_runtime_options,
        agent_config.api_key matches Some(own) ==> (r.credential matches Some(credential)
            && credential@ == own@),
        agent_config.api_key is None ==> match tool.fallback_credential {
            Some(shared) => r.credential matches Some(credential) && credential@ == shared@,
            None => r.credential is None,
        },
{
}

/// A provider that was created is handed on; where none could be, the result says for which
/// agent, and why.
pub proof fn law_create_provider_for_agent<T, S, R, M, P>(
    tool: &OrchestratorTool<T, S, R, M>,
    agent_config: &DelegateAgentConfig,
    agent_name: &str,
    created: Result<P, String>,
    r: Result<P, ToolResult>,
)
    requires
        call_ensures(
            OrchestratorTool::<T, S, R, M>::create_provider_for_agent::<P>,
            (tool, agent_config, agent_name, created),
            r,
        ),
    ensures
        created matches Ok(provider) ==> (r matches Ok(handed_on) && handed_on == provider),
        created matches Err(error) ==> (r matches Err(result) && {
            &&& !result.success
            &&& result.output@.len() == 0
            &&& result.error matches Some(text) && text@ == "Failed to create provider '"@
                + agent_config.provider@ + "' for agent '"@ + agent_name@ + "': "@ + error@
        }),
{
}

// ---- The system prompt ----

/// Skills are loaded for an agent just when it has allowed skills: from the directory that
/// it names, if that is not blank, else from the workspace's; and without scripts.
pub proof fn law_skill_request(agent_config: &DelegateAgentConfig, r: Option<SkillRequest>)
    requires
        call_ensures(skill_request, (agent_config,), r),
    ensures
        r is Some <==> agent_config.allowed_skills@.len() > 0,
        r matches Some(request) ==> !request.allow_scripts && match agent_config.skills_directory {
            Some(dir) => if is_blank(dir@) {
                request.source is Workspace
            } else {
                request.source matches SkillSource::Directory(from) && from@ == dir@
            },
            None => request.source is Workspace,
        },
{
    if let Some(dir) = agent_config.skills_directory {
        law_blank_iff_trimmed_away(dir@);
    }
}

/// An agent whose system prompt is being prepared has its skills loaded by its settings.
pub proof fn law_pending_skill_request<M>(
    pending: &PendingPrompt<M>,
    r: Option<SkillRequest>,
    by_settings: Option<SkillRequest>,
)
    requires
        call_ensures(PendingPrompt::<M>::skill_request, (pending,), r),
        call_ensures(skill_request, (pending.config,), by_settings),
    ensures
        r is Some <==> by_settings is Some,
        r matches Some(request) ==> !request.allow_scripts && (
        match by_settings->Some_0.source {
            SkillSource::Workspace => request.source is Workspace,
            SkillSource::Directory(dir) => request.source matches SkillSource::Directory(from)
                && from@ == dir@,
        }),
{
    if let Some(request) = r {
        assert(request@ == by_settings->Some_0@);
    }
}

/// A system prompt has the tools, the safety rules and the time, and after them skills where
/// there are some.
pub proof fn law_prompt_sections(has_skills: bool, r: Vec<PromptSection>)
    requires
        call_ensures(prompt_sections, (has_skills,), r),
    ensures
        has_skills ==> r@ == seq![
            PromptSection::Tools,
            PromptSection::Safety,
            PromptSection::DateTime,
            PromptSection::Skills,
        ],
        !has_skills ==> r@ == seq![
            PromptSection::Tools,
            PromptSection::Safety,
            PromptSection::DateTime,
        ],
{
}

proof fn lemma_blank_pieces(a: Seq<char>, b: Seq<char>)
    ensures
        is_blank(a + b) <==> is_blank(a) && is_blank(b),
{
    let whole = a + b;
    if is_blank(whole) {
        assert forall|i: int| 0 <= i < a.len() implies is_white_space(#[trigger] a[i]) by {
            assert(whole[i] == a[i]);
        }
        assert forall|i: int| 0 <= i < b.len() implies is_white_space(#[trigger] b[i]) by {
            assert(whole[a.len() + i] == b[i]);
        }
    }
}

/// A system prompt is what is left of its pieces without the white space around them all:
/// the rendered sections, the shell policy just where the agent has a shell, and the
/// operator's instructions. There is none just where every piece is blank.
pub proof fn law_build_enriched_system_prompt(
    agent_config: &DelegateAgentConfig,
    has_shell: bool,
    rendered: Option<String>,
    r: Option<String>,
)
    requires
        call_ensures(build_enriched_system_prompt, (agent_config, has_shell, rendered), r),
    ensures
        r is None <==> {
            &&& !has_shell
            &&& rendered matches Some(text) ==> is_blank(text@)
            &&& agent_config.system_prompt matches Some(text) ==> is_blank(text@)
        },
        r matches Some(text) ==> {
            &&& text@.len() > 0
            &&& !is_white_space(text@.first())
            &&& !is_white_space(text@.last())
            &&& exists|lead: Seq<char>, trail: Seq<char>|
                is_blank(lead) && is_blank(trail) && #[trigger] (lead + text@ + trail) == (
                match rendered {
                    Some(sections) => sections@,
                    None => Seq::empty(),
                }) + (if has_shell {
                    SHELL_POLICY@ + "\n\n"@
                } else {
                    Seq::empty()
                }) + (match agent_config.system_prompt {
                    Some(operator) => operator@ + "\n"@,
                    None => Seq::empty(),
                })
        },
        has_shell ==> (r matches Some(text) && occurs_in(SHELL_POLICY@, text@)),
{
    let sections = match rendered {
        Some(sections) => sections@,
        None => Seq::<char>::empty(),
    };
    let policy = if has_shell {
        SHELL_POLICY@ + "\n\n"@
    } else {
        Seq::<char>::empty()
    };
    let operator = match agent_config.system_prompt {
        Some(operator) => operator@ + "\n"@,
        None => Seq::<char>::empty(),
    };
    let full = full_prompt(
        rendered_or_empty(rendered),
        has_shell,
        opt_text(agent_config.system_prompt),
    );
    assert(full =~= sections + policy + operator);
    lemma_blank_pieces(sections + policy, operator);
    lemma_blank_pieces(sections, policy);
    reveal_strlit("\n");
    if let Some(text) = agent_config.system_prompt {
        lemma_blank_pieces(text@, "\n"@);
    }
    if has_shell {
        reveal_strlit(
            "## Shell Policy\n\n- Prefer non-destructive commands. Use `trash` over `rm` where possible.\n- Do not run commands that exfiltrate data or modify system-critical paths.\n- Avoid interactive commands that block on stdin.\n- Quote paths that may contain spaces.",
        );
        assert(SHELL_POLICY@[0] == '#');
        assert(policy[0] == '#');
        assert(!is_blank(policy));
        law_shell_policy_is_given(
            rendered_or_empty(rendered),
            opt_text(agent_config.system_prompt),
        );
    }
    law_blank_iff_trimmed_away(full);
    let ends = law_trimmed(full);
    if let Some(text) = r {
        let lead = full.subrange(0, ends.0);
        let trail = full.subrange(ends.1, full.len() as int);
        assert(lead + text@ + trail =~= full);
    }
}

/// The sections are rendered with the loaded skills that are on the agent's list, shown in
/// full, with the agent's model, tools and workspace, and with nothing else.
pub proof fn law_plan_prompt<M>(
    pending: &PendingPrompt<M>,
    loaded: &Vec<String>,
    r: PromptPlan,
)
    requires
        call_ensures(PendingPrompt::<M>::plan_prompt, (pending, loaded), r),
    ensures
        forall|i: int, j: int|
            0 <= i < loaded@.len() && 0 <= j < pending.config.allowed_skills@.len() && (
            #[trigger] pending.config.allowed_skills@[j])@ == (#[trigger] loaded@[i])@
                ==> exists|k: int| 0 <= k < r.skills@.len() && #[trigger] r.skills@[k] == i,
        forall|k: int|
            0 <= k < r.skills@.len() ==> {
                let i = #[trigger] r.skills@[k] as int;
                &&& i < loaded@.len()
                &&& exists|j: int|
                    0 <= j < pending.config.allowed_skills@.len() && (
                    #[trigger] pending.config.allowed_skills@[j])@ == loaded@[i]@
            },
        forall|j: int, k: int|
            0 <= j < k < r.skills@.len() ==> #[trigger] r.skills@[j] < #[trigger] r.skills@[k],
        r.sections@ == (if r.skills@.len() > 0 {
            seq![
                PromptSection::Tools,
                PromptSection::Safety,
                PromptSection::DateTime,
                PromptSection::Skills,
            ]
        } else {
            seq![PromptSection::Tools, PromptSection::Safety, PromptSection::DateTime]
        }),
        r.skills_prompt_mode == SkillsPromptInjectionMode::Full,
        *r.workspace_dir == *pending.workspace_dir,
        r.model@ == pending.config.model@,
        *r.sub_tools == pending.sub_tools,
        r.dispatcher_instructions@.len() == 0,
        !r.extras.identity,
        !r.extras.tool_descriptions,
        !r.extras.security_summary,
        !r.extras.autonomy_level,
{
    lemma_skills(loaded@, pending.config.allowed_skills@, r.skills@);
}

// ---- The conversation ----

/// A conversation starts with the system prompt, where there is one, and the agent's prompt.
/// It has the agent's tools, provider, model and settings, and nothing besides.
pub proof fn law_complete<M>(
    pending: PendingPrompt<M>,
    rendered: Option<String>,
    system_prompt: Option<String>,
    r: (ToolLoopRequest<M>, PendingReply),
)
    requires
        call_ensures(PendingPrompt::<M>::complete, (pending, rendered), r),
        call_ensures(
            build_enriched_system_prompt,
            (pending.config, pending.has_shell, rendered),
            system_prompt,
        ),
    ensures
        system_prompt matches Some(text) ==> {
            &&& r.0.history@.len() == 2
            &&& r.0.history@[0] matches ChatMessage::System(told) && told@ == text@
            &&& r.0.history@[1] matches ChatMessage::User(asked) && asked@ == pending.prompt@
        },
        system_prompt is None ==> {
            &&& r.0.history@.len() == 1
            &&& r.0.history@[0] matches ChatMessage::User(asked) && asked@ == pending.prompt@
        },
        r.0.sub_tools == pending.sub_tools,
        r.0.provider@ == pending.config.provider@,
        r.0.model@ == pending.config.model@,
        r.0.silent,
        r.0.channel@ == "orchestrate"@,
        *r.0.multimodal == *pending.multimodal,
        r.0.max_iterations == pending.config.max_iterations,
        r.0.excluded_tools@.len() == 0,
        r.0.dedup_exempt_tools@.len() == 0,
        r.0.max_tool_result_chars == 20000,
        r.0.context_token_budget == 0,
        !r.0.extras.observed,
        !r.0.extras.approval,
        !r.0.extras.channel_reply_target,
        !r.0.extras.cancellation,
        !r.0.extras.deltas,
        !r.0.extras.hooks,
        !r.0.extras.activated_tools,
        !r.0.extras.model_switch,
        !r.0.extras.shared_budget,
        !r.0.extras.pacing,
        r.0.timeout_secs == pending.timeout_secs,
        r.1.agent_name@ == pending.agent_name@,
        r.1.timeout_secs == pending.timeout_secs,
{
    let history = messages_view(r.0.history@);
    assert(history.len() == r.0.history@.len());
    assert(history[0] == r.0.history@[0]@);
    if r.0.history@.len() == 2 {
        assert(history[1] == r.0.history@[1]@);
    }
}

/// An answer that is not blank is the agent's output as it is, and a note stands for one
/// that is blank. Without an answer the agent fails: with the error, or with the time that
/// it had, in decimal.
pub proof fn law_finish(
    pending: PendingReply,
    reply: Reply,
    secs: String,
    r: Result<String, String>,
)
    requires
        call_ensures(PendingReply::finish, (pending, reply), r),
        call_ensures(decimal, (pending.timeout_secs,), secs),
    ensures
        reply matches Reply::Answered(text) ==> (r matches Ok(output) && output@ == (if is_blank(
            text@,
        ) {
            "[Empty response]"@
        } else {
            text@
        })),
        reply matches Reply::Failed(error) ==> (r matches Err(reason) && reason@ == "Agent '"@
            + pending.agent_name@ + "' failed: "@ + error@),
        reply is TimedOut ==> (r matches Err(reason) && reason@ == "Agent '"@
            + pending.agent_name@ + "' timed out after "@ + secs@ + "s"@),
{
    if let Reply::Answered(text) = reply {
        law_blank_iff_trimmed_away(text@);
    }
}

// ---- The turn ----

/// The smaller of two numbers.
pub open spec fn smaller(a: u64, b: u64) -> u64 {
    if a < b {
        a
    } else {
        b
    }
}

/// An agent without a provider fails. One that is set up for tools and gets at least one,
/// however many, is run with all its tools. One that is not set up so, or gets none, is
/// asked once, with the operator's instructions as they are.
pub proof fn law_execute_agent<T, S, R, M, P>(
    tool: &OrchestratorTool<T, S, R, M>,
    agent_name: &str,
    agent_config: &DelegateAgentConfig,
    prompt: &str,
    timeout_secs: u64,
    parent_tools: &Vec<String>,
    created: Result<P, String>,
    r: AgentStep<P, M>,
)
    requires
        call_ensures(
            OrchestratorTool::<T, S, R, M>::execute_agent::<P>,
            (tool, agent_name, agent_config, prompt, timeout_secs, parent_tools, created),
            r,
        ),
    ensures
        created matches Err(error) ==> (r matches AgentStep::Finished(Err(reason)) && reason@
            == "Failed to create provider '"@ + agent_config.provider@ + "' for agent '"@
            + agent_name@ + "': "@ + error@),
        created is Ok ==> (r is Prepare <==> agent_config.agentic && exists|i: int, j: int|
            0 <= i < parent_tools@.len() && 0 <= j < agent_config.allowed_tools@.len() && trimmed(
                #[trigger] agent_config.allowed_tools@[j]@,
            ) == (#[trigger] parent_tools@[i])@ && parent_tools@[i]@.len() > 0 && parent_tools@[i]@
                != "delegate"@ && parent_tools@[i]@ != "orchestrate"@),
        created is Ok && !(r is Prepare) ==> r is Chat,
        r matches AgentStep::Prepare(provider, pending) ==> {
            &&& created matches Ok(given) && provider == given
            &&& pending.agent_name@ == agent_name@
            &&& *pending.config == *agent_config
            &&& pending.prompt@ == prompt@
            &&& are_tools_of(pending.sub_tools@, parent_tools@, agent_config.allowed_tools@)
            &&& pending.has_shell <==> exists|i: int, j: int|
                0 <= i < parent_tools@.len() && 0 <= j < agent_config.allowed_tools@.len()
                    && trimmed(#[trigger] agent_config.allowed_tools@[j]@) == "shell"@ && (
                #[trigger] parent_tools@[i])@ == "shell"@
            &&& *pending.workspace_dir == tool.workspace_dir
            &&& *pending.multimodal == tool.multimodal_config
            &&& pending.timeout_secs == smaller(
                timeout_secs,
                match agent_config.agentic_timeout_secs {
                    Some(own) => own,
                    None => tool.delegate_config.agentic_timeout_secs,
                },
            )
        },
        r matches AgentStep::Chat(provider, request, pending) ==> {
            &&& created matches Ok(given) && provider == given
            &&& match agent_config.system_prompt {
                Some(text) => request.system_prompt matches Some(told) && told@ == text@,
                None => request.system_prompt is None,
            }
            &&& request.prompt@ == prompt@
            &&& request.model@ == agent_config.model@
            &&& request.timeout_secs == timeout_secs
            &&& pending.agent_name@ == agent_name@
            &&& pending.timeout_secs == timeout_secs
        },
{
    let allowed = agent_config.allowed_tools@;
    let names = texts(parent_tools@);
    let list = texts(allowed);
    let picked = usable_tools(names, list);
    let given_out = tracked_tools(names, list);
    assert(given_out.len() == picked.len());
    lemma_positions(names, |tool: Seq<char>| may_use_tool(list, tool));
    assert forall|i: int, j: int|
        0 <= i < parent_tools@.len() && 0 <= j < allowed.len() && trimmed(#[trigger] allowed[j]@)
            == (#[trigger] parent_tools@[i])@ && parent_tools@[i]@.len() > 0 && parent_tools@[i]@
            != "delegate"@ && parent_tools@[i]@ != "orchestrate"@ implies given_out.len() > 0 by {
        assert(names[i] == parent_tools@[i]@);
        assert(trimmed(list[j]) == names[i]);
        assert(may_use_tool(list, names[i]));
        assert(picked.contains(i));
    }
    if given_out.len() > 0 {
        let i = picked[0];
        assert(names[i] == parent_tools@[i]@);
        assert(may_use_tool(list, names[i]));
        let j: int = choose|j: int| 0 <= j < list.len() && #[trigger] trimmed(list[j]) == names[i];
        assert(list[j] == allowed[j]@);
        assert(trimmed(allowed[j]@) == parent_tools@[i]@);
    }
    if let AgentStep::Prepare(_, pending) = r {
        let tools = pending.sub_tools@;
        lemma_tracked_tools(tools, parent_tools@, allowed);
        assert(wrappers_view(tools).len() == tools.len());
        reveal_strlit("shell");
        reveal_strlit("delegate");
        reveal_strlit("orchestrate");
        assert("shell"@.len() == 5 && "delegate"@.len() == 8 && "orchestrate"@.len() == 11);
        assert forall|i: int, j: int|
            0 <= i < parent_tools@.len() && 0 <= j < allowed.len() && trimmed(
                #[trigger] allowed[j]@,
            ) == "shell"@ && (#[trigger] parent_tools@[i])@ == "shell"@ implies pending.has_shell by {
            let k: int = choose|k: int| 0 <= k < tools.len() && (#[trigger] tools[k]).inner == i;
            assert(wrappers_view(tools)[k] == tools[k]@);
            assert(given_out[k].name == "shell"@);
        }
        if pending.has_shell {
            let k: int = choose|k: int|
                0 <= k < given_out.len() && (#[trigger] given_out[k]).name == "shell"@;
            assert(wrappers_view(tools)[k] == tools[k]@);
            let j: int = choose|j: int|
                0 <= j < allowed.len() && trimmed(#[trigger] allowed[j]@) == tools[k].name@;
            assert(parent_tools@[tools[k].inner as int]@ == "shell"@);
            assert(trimmed(allowed[j]@) == "shell"@);
        }
    }
}

/// The conversation of an agent that is run with tools and has the shell on its list, where
/// the parent has it, starts with a system prompt that holds the shell policy, wherever
/// among the agent's tools the shell stands. Without it no policy is put in.
pub proof fn law_shell_comes_with_its_policy<T, S, R, M, P>(
    tool: &OrchestratorTool<T, S, R, M>,
    agent_name: &str,
    agent_config: &DelegateAgentConfig,
    prompt: &str,
    timeout_secs: u64,
    parent_tools: &Vec<String>,
    created: Result<P, String>,
    step: AgentStep<P, M>,
    rendered: Option<String>,
    system_prompt: Option<String>,
    r: (ToolLoopRequest<M>, PendingReply),
)
    requires
        call_ensures(
            OrchestratorTool::<T, S, R, M>::execute_agent::<P>,
            (tool, agent_name, agent_config, prompt, timeout_secs, parent_tools, created),
            step,
        ),
        step matches AgentStep::Prepare(_, pending) && call_ensures(
            PendingPrompt::<M>::complete,
            (pending, rendered),
            r,
        ),
        call_ensures(build_enriched_system_prompt, (agent_config, false, rendered), system_prompt),
    ensures
        (exists|i: int, j: int|
            0 <= i < parent_tools@.len() && 0 <= j < agent_config.allowed_tools@.len() && trimmed(
                #[trigger] agent_config.allowed_tools@[j]@,
            ) == "shell"@ && (#[trigger] parent_tools@[i])@ == "shell"@) ==> {
            &&& r.0.history@.len() == 2
            &&& r.0.history@[0] matches ChatMessage::System(text) && occurs_in(
                SHELL_POLICY@,
                text@,
            )
        },
        !(exists|i: int, j: int|
            0 <= i < parent_tools@.len() && 0 <= j < agent_config.allowed_tools@.len() && trimmed(
                #[trigger] agent_config.allowed_tools@[j]@,
            ) == "shell"@ && (#[trigger] parent_tools@[i])@ == "shell"@) ==> {
            &&& r.0.history@.len() == (if system_prompt is Some {
                2int
            } else {
                1int
            })
            &&& system_prompt matches Some(plain) ==> (
            r.0.history@[0] matches ChatMessage::System(text) && text@ == plain@)
        },
{
    law_execute_agent(
        tool,
        agent_name,
        agent_config,
        prompt,
        timeout_secs,
        parent_tools,
        created,
        step,
    );
    let history = messages_view(r.0.history@);
    assert(history.len() == r.0.history@.len());
    assert(history[0] == r.0.history@[0]@);
    law_shell_policy_is_given(rendered_or_empty(rendered), opt_text(agent_config.system_prompt));
}

} // verus!
