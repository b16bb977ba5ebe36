//! What holds of the library as a whole.

use vstd::prelude::*;

use crate::agent::{effective_timeout, runs_with_tools};
use crate::config::{refusal_view, DelegateAgentConfig, DelegateToolConfig, OrchestrationConfig};
use crate::json::{text_at, JsonTree};
use crate::orchestrator::{listing, orchestration_help, schema_tree, text_parameter_tree};
use crate::pipeline::{agent_share, first_step, opening, StepView};
use crate::prompt::{
    full_prompt, sections_with, skill_request_of, system_prompt_of, PromptSection, SHELL_POLICY,
};
use crate::selection::{
    lemma_positions, lemma_positions_push, may_use_tool, tracked_tools, usable_skills, usable_tools,
};
use crate::text::{
    is_blank, is_white_space, joined, occurs_in, texts, trimmed, trimmed_end, trimmed_start,
};
use crate::tracking::{
    call_tree, calls_tree, entry_of, report_tree, Invocation, TrackedToolCallView,
    TrackingToolWrapperView, ORCHESTRATED_CALLS_KEY,
};

verus! {

broadcast use vstd::string::group_string_axioms;

// ---- Trimming ----

/// `trimmed_start` cuts off a prefix of white space and stops before the first other character.
proof fn lemma_trimmed_start(s: Seq<char>) -> (i: int)
    ensures
        0 <= i <= s.len(),
        trimmed_start(s) == s.subrange(i, s.len() as int),
        forall|k: int| 0 <= k < i ==> is_white_space(#[trigger] s[k]),
        i < s.len() ==> !is_white_space(s[i]),
    decreases s.len(),
{
    if s.len() > 0 && is_white_space(s.first()) {
        let rest = s.drop_first();
        let j: int = lemma_trimmed_start(rest);
        assert(rest.subrange(j, rest.len() as int) =~= s.subrange(j + 1, s.len() as int));
        assert forall|k: int| 0 <= k < j + 1 implies is_white_space(#[trigger] s[k]) by {
            if k > 0 {
                assert(rest[k - 1] == s[k]);
            }
        }
        if j + 1 < s.len() {
            assert(rest[j] == s[j + 1]);
        }
        j + 1
    } else {
        assert(s.subrange(0, s.len() as int) =~= s);
        0
    }
}

/// `trimmed_end` cuts off a suffix of white space and stops behind the last other character.
proof fn lemma_trimmed_end(s: Seq<char>) -> (j: int)
    ensures
        0 <= j <= s.len(),
        trimmed_end(s) == s.subrange(0, j),
        forall|k: int| j <= k < s.len() ==> is_white_space(#[trigger] s[k]),
        j > 0 ==> !is_white_space(s[j - 1]),
    decreases s.len(),
{
    if s.len() > 0 && is_white_space(s.last()) {
        let rest = s.drop_last();
        let j: int = lemma_trimmed_end(rest);
        assert(rest.subrange(0, j) =~= s.subrange(0, j));
        assert forall|k: int| j <= k < s.len() implies is_white_space(#[trigger] s[k]) by {
            if k < rest.len() {
                assert(rest[k] == s[k]);
            }
        }
        if j > 0 {
            assert(rest[j - 1] == s[j - 1]);
        }
        j
    } else {
        assert(s.subrange(0, s.len() as int) =~= s);
        s.len() as int
    }
}

/// A trimmed text is a stretch of the text that it came from. Around the stretch there is
/// only white space, and it neither starts nor ends with any.
pub proof fn law_trimmed(s: Seq<char>) -> (r: (int, int))
    ensures
        0 <= r.0 <= r.1 <= s.len(),
        trimmed(s) == s.subrange(r.0, r.1),
        forall|k: int| 0 <= k < r.0 || r.1 <= k < s.len() ==> is_white_space(#[trigger] s[k]),
        r.0 < r.1 ==> !is_white_space(s[r.0]) && !is_white_space(s[r.1 - 1]),
{
    let i: int = lemma_trimmed_start(s);
    let t = trimmed_start(s);
    let j: int = lemma_trimmed_end(t);
    assert(t.subrange(0, j) =~= s.subrange(i, i + j));
    assert forall|k: int| 0 <= k < i || i + j <= k < s.len() implies is_white_space(
        #[trigger] s[k],
    ) by {
        if k >= i + j {
            assert(t[k - i] == s[k]);
        }
    }
    if j > 0 {
        assert(t[j - 1] == s[i + j - 1]);
    }
    (i, i + j)
}

/// Trimming leaves nothing just of a blank text.
pub proof fn law_blank_iff_trimmed_away(s: Seq<char>)
    ensures
        is_blank(s) <==> trimmed(s).len() == 0,
{
    let r = law_trimmed(s);
    if r.0 < r.1 {
        assert(!is_white_space(s[r.0]));
    }
}

/// A text without white space at its ends stays as it is.
proof fn lemma_trimmed_fixed(s: Seq<char>)
    requires
        s.len() > 0,
        !is_white_space(s.first()),
        !is_white_space(s.last()),
    ensures
        trimmed(s) == s,
{
}

/// Trimming twice is trimming once.
pub proof fn law_trimming_again(s: Seq<char>)
    ensures
        trimmed(trimmed(s)) == trimmed(s),
{
    let r = law_trimmed(s);
    let t = trimmed(s);
    if t.len() > 0 {
        assert(t.first() == s[r.0]);
        assert(t.last() == s[r.1 - 1]);
        lemma_trimmed_fixed(t);
    }
}

// ---- The record ----

/// The record after a number of invocations, each of which puts its entry at the end.
pub open spec fn record_after(
    record: Seq<TrackedToolCallView>,
    invocations: Seq<Invocation>,
) -> Seq<TrackedToolCallView>
    decreases invocations.len(),
{
    if invocations.len() == 0 {
        record
    } else {
        record_after(record, invocations.drop_last()).push(entry_of(invocations.last()))
    }
}

/// Every invocation is in the record, once, in the order in which they were over, behind
/// what was there before; and nothing else is. Each entry has the tool's name and its
/// arguments; where the tool gave a result it has the output and whether that is a success.
pub proof fn law_every_invocation_is_recorded(
    record: Seq<TrackedToolCallView>,
    invocations: Seq<Invocation>,
)
    ensures
        record_after(record, invocations).len() == record.len() + invocations.len(),
        record_after(record, invocations).take(record.len() as int) == record,
        forall|i: int|
            0 <= i < invocations.len() ==> {
                let entry = #[trigger] record_after(record, invocations)[record.len() + i];
                &&& entry.name == invocations[i].name
                &&& entry.args == invocations[i].args
                &&& invocations[i].outcome matches Ok(result) ==> entry.result == result.output
                    && entry.success == result.success
                &&& invocations[i].outcome matches Err(error) ==> entry.result == error
                    && !entry.success
            },
    decreases invocations.len(),
{
    let after = record_after(record, invocations);
    if invocations.len() > 0 {
        let init = invocations.drop_last();
        let before = record_after(record, init);
        law_every_invocation_is_recorded(record, init);
        assert(after.take(record.len() as int) =~= before.take(record.len() as int));
        assert forall|i: int| 0 <= i < invocations.len() implies ({
            let entry = #[trigger] after[record.len() + i];
            &&& entry.name == invocations[i].name
            &&& entry.args == invocations[i].args
            &&& invocations[i].outcome matches Ok(result) ==> entry.result == result.output
                && entry.success == result.success
            &&& invocations[i].outcome matches Err(error) ==> entry.result == error
                && !entry.success
        }) by {
            if i < init.len() {
                assert(init[i] == invocations[i]);
                assert(after[record.len() + i] == before[record.len() + i]);
            }
        }
    } else {
        assert(record.take(record.len() as int) =~= record);
    }
}

// ---- The report ----

/// The report on a run holds the response and, under its key, every tracked call in order;
/// and it holds nothing else.
pub proof fn law_report_holds_every_call(response: Seq<char>, calls: Seq<TrackedToolCallView>)
    ensures
        text_at(report_tree(response, calls), "response"@) == Some(response),
        report_tree(response, calls) matches JsonTree::Object(members) && {
            &&& members.dom() == set!["response"@, ORCHESTRATED_CALLS_KEY@]
            &&& members[ORCHESTRATED_CALLS_KEY@] matches JsonTree::Array(items) && {
                &&& items.len() == calls.len()
                &&& forall|i: int|
                    0 <= i < calls.len() ==> #[trigger] items[i] == call_tree(calls[i])
            }
        },
{
    reveal_strlit("response");
    reveal_strlit("__orchestrated_tool_calls");
    assert("response"@.len() != ORCHESTRATED_CALLS_KEY@.len());
    if let JsonTree::Object(members) = report_tree(response, calls) {
        assert(members.dom() =~= set!["response"@, ORCHESTRATED_CALLS_KEY@]);
    }
}

/// A reported call has the tool's name, its arguments, its result and whether that was a
/// success; and it has nothing else.
pub proof fn law_reported_call_is_complete(call: TrackedToolCallView)
    ensures
        call_tree(call) matches JsonTree::Object(members) && {
            &&& members.dom() == set!["name"@, "args"@, "result"@, "success"@]
            &&& members["name"@] == JsonTree::Text(call.name)
            &&& members["args"@] == call.args
            &&& members["result"@] == JsonTree::Text(call.result)
            &&& members["success"@] == JsonTree::Bool(call.success)
        },
{
    reveal_strlit("name");
    reveal_strlit("args");
    reveal_strlit("result");
    reveal_strlit("success");
    assert("name"@[0] == 'n' && "args"@[0] == 'a');
    assert("name"@ != "args"@);
    assert("result"@.len() == 6 && "success"@.len() == 7);
    if let JsonTree::Object(members) = call_tree(call) {
        assert(members.dom() =~= set!["name"@, "args"@, "result"@, "success"@]);
    }
}

/// Two reports that are the same have the same response and the same calls: nothing of a
/// call is lost in it.
pub proof fn law_report_determines_calls(
    response1: Seq<char>,
    calls1: Seq<TrackedToolCallView>,
    response2: Seq<char>,
    calls2: Seq<TrackedToolCallView>,
)
    requires
        report_tree(response1, calls1) == report_tree(response2, calls2),
    ensures
        response1 == response2,
        calls1 == calls2,
{
    law_report_holds_every_call(response1, calls1);
    law_report_holds_every_call(response2, calls2);
    let items = calls1.map_values(|c: TrackedToolCallView| call_tree(c));
    assert(calls_tree(calls1) == calls_tree(calls2));
    assert(items == calls2.map_values(|c: TrackedToolCallView| call_tree(c)));
    assert(calls1.len() == items.len() && calls2.len() == items.len());
    assert forall|i: int| 0 <= i < calls1.len() implies calls1[i] == calls2[i] by {
        assert(items[i] == call_tree(calls1[i]) && items[i] == call_tree(calls2[i]));
        law_reported_call_is_complete(calls1[i]);
        law_reported_call_is_complete(calls2[i]);
    }
    assert(calls1 =~= calls2);
}

// ---- The tools and skills of an agent ----

/// An agent's tools are those of its parent that are on its list and do not start agents,
/// all of them, in the parent's order.
pub proof fn law_agent_tools(tools: Seq<Seq<char>>, allowed: Seq<Seq<char>>)
    ensures
        forall|i: int| #[trigger]
            usable_tools(tools, allowed).contains(i) <==> {
                &&& 0 <= i < tools.len()
                &&& tools[i].len() > 0
                &&& tools[i] != "delegate"@
                &&& tools[i] != "orchestrate"@
                &&& exists|j: int|
                    0 <= j < allowed.len() && #[trigger] trimmed(allowed[j]) == tools[i]
            },
        forall|j: int, k: int|
            0 <= j < k < usable_tools(tools, allowed).len() ==> #[trigger] usable_tools(
                tools,
                allowed,
            )[j] < #[trigger] usable_tools(tools, allowed)[k],
{
    lemma_positions(tools, |tool: Seq<char>| may_use_tool(allowed, tool));
}

/// Each of an agent's tools is one of the parent's that the agent may use, under the name
/// that it has there.
pub proof fn law_agent_tool_is_the_parents(
    tools: Seq<Seq<char>>,
    allowed: Seq<Seq<char>>,
    k: int,
)
    requires
        0 <= k < tracked_tools(tools, allowed).len(),
    ensures
        ({
            let tool = tracked_tools(tools, allowed)[k];
            &&& 0 <= tool.inner < tools.len()
            &&& tool.name == tools[tool.inner]
            &&& tool.name.len() > 0
            &&& tool.name != "delegate"@
            &&& tool.name != "orchestrate"@
            &&& exists|j: int|
                0 <= j < allowed.len() && #[trigger] trimmed(allowed[j]) == tool.name
        }),
{
    lemma_positions(tools, |tool: Seq<char>| may_use_tool(allowed, tool));
}

/// A tool that is added to the parent's is one of the agent's from then on, if it is allowed,
/// behind those that the agent had; and if it is not allowed, nothing changes.
pub proof fn law_added_tool_is_seen(
    tools: Seq<Seq<char>>,
    allowed: Seq<Seq<char>>,
    added: Seq<char>,
)
    ensures
        tracked_tools(tools.push(added), allowed) == (if may_use_tool(allowed, added) {
            tracked_tools(tools, allowed).push(
                TrackingToolWrapperView { inner: tools.len() as int, name: added },
            )
        } else {
            tracked_tools(tools, allowed)
        }),
{
    let keep = |tool: Seq<char>| may_use_tool(allowed, tool);
    lemma_positions(tools, keep);
    lemma_positions_push(tools, keep, added);
    assert(tracked_tools(tools.push(added), allowed) =~= (if may_use_tool(allowed, added) {
        tracked_tools(tools, allowed).push(
            TrackingToolWrapperView { inner: tools.len() as int, name: added },
        )
    } else {
        tracked_tools(tools, allowed)
    }));
}

/// No agent gets a tool that starts agents, whatever its list of allowed tools says.
pub proof fn law_no_agent_starts_agents(tools: Seq<Seq<char>>, allowed: Seq<Seq<char>>, k: int)
    requires
        0 <= k < usable_tools(tools, allowed).len(),
    ensures
        0 <= usable_tools(tools, allowed)[k] < tools.len(),
        tools[usable_tools(tools, allowed)[k]] != "delegate"@,
        tools[usable_tools(tools, allowed)[k]] != "orchestrate"@,
{
    lemma_positions(tools, |tool: Seq<char>| may_use_tool(allowed, tool));
    assert(may_use_tool(allowed, tools[usable_tools(tools, allowed)[k]]));
}

/// An agent whose list of allowed tools has only blank entries, or none, gets no tools, and
/// so is never run with tools.
pub proof fn law_blank_list_gives_no_tools(
    tools: Seq<Seq<char>>,
    agent_config: DelegateAgentConfig,
)
    requires
        forall|i: int|
            0 <= i < agent_config.allowed_tools@.len() ==> is_blank(
                #[trigger] texts(agent_config.allowed_tools@)[i],
            ),
    ensures
        usable_tools(tools, texts(agent_config.allowed_tools@)).len() == 0,
        !runs_with_tools(
            agent_config,
            tracked_tools(tools, texts(agent_config.allowed_tools@)),
        ),
{
    let allowed = texts(agent_config.allowed_tools@);
    let picked = usable_tools(tools, allowed);
    lemma_positions(tools, |tool: Seq<char>| may_use_tool(allowed, tool));
    if picked.len() > 0 {
        let tool = tools[picked[0]];
        assert(may_use_tool(allowed, tool));
        let i: int = choose|i: int|
            0 <= i < allowed.len() && #[trigger] trimmed(allowed[i]) == tool;
        law_blank_iff_trimmed_away(allowed[i]);
    }
}

/// An agent's skills are those of the loaded ones that are on its list, all of them, in the
/// order of loading.
pub proof fn law_agent_skills(skills: Seq<Seq<char>>, allowed: Seq<Seq<char>>)
    ensures
        forall|i: int| #[trigger]
            usable_skills(skills, allowed).contains(i) <==> 0 <= i < skills.len()
                && allowed.contains(skills[i]),
        forall|j: int, k: int|
            0 <= j < k < usable_skills(skills, allowed).len() ==> #[trigger] usable_skills(
                skills,
                allowed,
            )[j] < #[trigger] usable_skills(skills, allowed)[k],
{
    lemma_positions(skills, |skill: Seq<char>| allowed.contains(skill));
}

/// Whatever is loaded for an agent, the scripts that skills bring are not allowed.
pub proof fn law_no_skill_scripts(config: DelegateAgentConfig)
    ensures
        skill_request_of(config) matches Some(request) ==> !request.allow_scripts,
{
}

/// An agent without allowed skills loads none, and its system prompt has no section for them.
pub proof fn law_no_skills_by_default(config: DelegateAgentConfig, skills: Seq<Seq<char>>)
    requires
        config.allowed_skills@.len() == 0,
    ensures
        skill_request_of(config) is None,
        usable_skills(skills, texts(config.allowed_skills@)).len() == 0,
        !sections_with(
            usable_skills(skills, texts(config.allowed_skills@)).len() > 0,
        ).contains(PromptSection::Skills),
{
    let allowed = texts(config.allowed_skills@);
    lemma_positions(skills, |skill: Seq<char>| allowed.contains(skill));
    let picked = usable_skills(skills, allowed);
    if picked.len() > 0 {
        assert(allowed.contains(skills[picked[0]]));
    }
}

// ---- The system prompt ----

/// An agent is without a system prompt just when all its pieces are blank; a system prompt
/// that is there is not blank.
pub proof fn law_system_prompt_is_never_blank(
    rendered: Seq<char>,
    has_shell: bool,
    operator_prompt: Option<Seq<char>>,
)
    ensures
        system_prompt_of(rendered, has_shell, operator_prompt) is None <==> is_blank(
            full_prompt(rendered, has_shell, operator_prompt),
        ),
        system_prompt_of(rendered, has_shell, operator_prompt) matches Some(text) ==> !is_blank(
            text,
        ),
{
    let full = full_prompt(rendered, has_shell, operator_prompt);
    law_blank_iff_trimmed_away(full);
    law_trimming_again(full);
    law_blank_iff_trimmed_away(trimmed(full));
}

/// A stretch that neither starts nor ends with white space survives trimming.
proof fn lemma_stretch_survives(before: Seq<char>, stretch: Seq<char>, after: Seq<char>)
    requires
        stretch.len() > 0,
        !is_white_space(stretch.first()),
        !is_white_space(stretch.last()),
    ensures
        occurs_in(stretch, trimmed(before + stretch + after)),
{
    let s = before + stretch + after;
    let r = law_trimmed(s);
    let first = before.len() as int;
    let last: int = before.len() + stretch.len() - 1;
    assert(s[first] == stretch.first());
    assert(s[last] == stretch.last());
    assert(r.0 <= first && last < r.1);
    assert(s.subrange(r.0, first) + stretch + s.subrange(last + 1, r.1) =~= trimmed(s));
}

proof fn lemma_occurring_is_no_longer(part: Seq<char>, whole: Seq<char>)
    requires
        occurs_in(part, whole),
    ensures
        part.len() <= whole.len(),
{
}

/// The system prompt of an agent that has a shell holds the shell policy, whole.
pub proof fn law_shell_policy_is_given(rendered: Seq<char>, operator_prompt: Option<Seq<char>>)
    ensures
        system_prompt_of(rendered, true, operator_prompt) matches Some(text) && occurs_in(
            SHELL_POLICY@,
            text,
        ),
{
    let operator = match operator_prompt {
        Some(text) => text + "\n"@,
        None => Seq::empty(),
    };
    reveal_strlit(
        "## Shell Policy\n\n- Prefer non-destructive commands. Use `trash` over `rm` where possible.\n- Do not run commands that exfiltrate data or modify system-critical paths.\n- Avoid interactive commands that block on stdin.\n- Quote paths that may contain spaces.",
    );
    assert(SHELL_POLICY@.first() == '#');
    assert(SHELL_POLICY@.last() == '.');
    let full = full_prompt(rendered, true, operator_prompt);
    assert(full =~= rendered + SHELL_POLICY@ + ("\n\n"@ + operator));
    lemma_stretch_survives(rendered, SHELL_POLICY@, "\n\n"@ + operator);
    lemma_occurring_is_no_longer(SHELL_POLICY@, trimmed(full));
}

/// The system prompt ends with the operator's instructions, whole but for white space around
/// them. White space in front of them is kept where something stands before them, and what
/// stands there loses only the white space that it starts with.
pub proof fn law_operator_prompt_is_given(
    rendered: Seq<char>,
    has_shell: bool,
    operator_prompt: Seq<char>,
)
    requires
        !is_blank(operator_prompt),
    ensures
        system_prompt_of(rendered, has_shell, Some(operator_prompt)) matches Some(text) && {
            let before = full_prompt(rendered, has_shell, None);
            &&& trimmed(operator_prompt).is_suffix_of(text)
            &&& text == (if is_blank(before) {
                trimmed(operator_prompt)
            } else {
                trimmed_start(before) + trimmed_end(operator_prompt)
            })
        },
{
    let before = full_prompt(rendered, has_shell, None);
    let full = full_prompt(rendered, has_shell, Some(operator_prompt));
    let n: int = before.len() as int;
    let m: int = operator_prompt.len() as int;
    reveal_strlit("\n");
    assert(full =~= before + operator_prompt + "\n"@);
    assert(is_white_space(full[n + m]));
    let whole = law_trimmed(full);
    let core = law_trimmed(operator_prompt);
    let start: int = lemma_trimmed_start(before);
    let end: int = lemma_trimmed_end(operator_prompt);
    law_blank_iff_trimmed_away(operator_prompt);
    // Where the instructions end, the whole ends.
    assert(full[n + core.0] == operator_prompt[core.0]);
    assert(full[n + core.1 - 1] == operator_prompt[core.1 - 1]);
    assert(end == core.1) by {
        assert(!is_white_space(operator_prompt[core.1 - 1]));
        assert(end > 0 && !is_white_space(operator_prompt[end - 1]));
    }
    assert(whole.1 == n + core.1) by {
        if whole.1 > n + core.1 && whole.1 <= n + m {
            assert(full[whole.1 - 1] == operator_prompt[whole.1 - 1 - n]);
        }
    }
    if is_blank(before) {
        assert(whole.0 == n + core.0) by {
            if whole.0 < n {
                assert(full[whole.0] == before[whole.0]);
            } else if whole.0 < n + core.0 {
                assert(full[whole.0] == operator_prompt[whole.0 - n]);
            }
        }
        assert(trimmed(full) =~= trimmed(operator_prompt));
    } else {
        assert(start < n);
        assert(full[start] == before[start]);
        assert(whole.0 == start) by {
            if whole.0 < start {
                assert(full[whole.0] == before[whole.0]);
            }
        }
        assert(trimmed(full) =~= trimmed_start(before) + trimmed_end(operator_prompt));
    }
    let text = trimmed(full);
    assert(text.len() >= core.1 - core.0);
    assert(trimmed(operator_prompt) =~= text.subrange(
        text.len() - (core.1 - core.0),
        text.len() as int,
    ));
}

// ---- Time ----

/// The agents of an orchestration together have no more time than the orchestration, and each
/// has as many whole seconds as that leaves it.
pub proof fn law_time_is_shared_out(timeout_secs: u64, agents: nat)
    ensures
        0 <= agents * agent_share(timeout_secs, agents) <= timeout_secs,
        agents > 0 ==> timeout_secs < agents * (agent_share(timeout_secs, agents) + 1),
{
    let share: int = agent_share(timeout_secs, agents);
    if agents > 1 {
        assert(0 <= agents * share <= timeout_secs < agents * (share + 1)) by (nonlinear_arith)
            requires
                share == timeout_secs as int / agents as int,
                agents > 1,
        ;
    } else {
        assert(agents * share <= share) by (nonlinear_arith)
            requires
                agents <= 1,
                share >= 0,
        ;
        assert(agents * share >= 0) by (nonlinear_arith)
            requires
                share >= 0,
        ;
    }
}

/// A run with tools has no more time than the agent's share, no more than the agent's own
/// bound, and where it has none no more than the tool's; and it has all of one of them.
pub proof fn law_tool_run_is_bounded(
    timeout_secs: u64,
    agent_config: DelegateAgentConfig,
    delegate_config: DelegateToolConfig,
)
    ensures
        ({
            let effective = effective_timeout(timeout_secs, agent_config, delegate_config);
            &&& effective <= timeout_secs
            &&& agent_config.agentic_timeout_secs matches Some(bound) ==> effective <= bound
                && (effective == timeout_secs || effective == bound)
            &&& agent_config.agentic_timeout_secs is None ==> effective
                <= delegate_config.agentic_timeout_secs && (effective == timeout_secs
                || effective == delegate_config.agentic_timeout_secs)
        }),
{
}

// ---- Requests ----

/// A request can run just when both parameters are given, neither is blank, and the first
/// names an orchestration that has agents.
pub proof fn law_ready_iff_in_order(
    orchestrations: Map<Seq<char>, OrchestrationConfig>,
    names: Seq<Seq<char>>,
    orchestration: Option<Seq<char>>,
    prompt: Option<Seq<char>>,
)
    ensures
        opening(orchestrations, names, orchestration, prompt) is Ready <==> {
            &&& orchestration matches Some(name)
            &&& prompt matches Some(task)
            &&& !is_blank(name)
            &&& !is_blank(task)
            &&& orchestrations.contains_key(trimmed(name))
            &&& orchestrations[trimmed(name)].agents@.len() > 0
        },
{
    if let Some(name) = orchestration {
        law_blank_iff_trimmed_away(name);
    }
    if let Some(task) = prompt {
        law_blank_iff_trimmed_away(task);
    }
}

/// White space around the parameters of a request makes no difference.
pub proof fn law_white_space_around_parameters(
    orchestrations: Map<Seq<char>, OrchestrationConfig>,
    names: Seq<Seq<char>>,
    orchestration: Seq<char>,
    prompt: Seq<char>,
)
    ensures
        opening(orchestrations, names, Some(orchestration), Some(prompt)) == opening(
            orchestrations,
            names,
            Some(trimmed(orchestration)),
            Some(trimmed(prompt)),
        ),
{
    law_trimming_again(orchestration);
    law_trimming_again(prompt);
}

/// A run that the security policy forbids is refused with the policy's reason: no agent has
/// a turn.
pub proof fn law_policy_comes_first(
    agents: Map<Seq<char>, DelegateAgentConfig>,
    orchestration: Seq<char>,
    task: Seq<char>,
    config: OrchestrationConfig,
    policy: Result<(), Seq<char>>,
)
    ensures
        policy matches Err(reason) ==> first_step(agents, orchestration, task, config, policy)
            == StepView::Finished(refusal_view(reason)),
        policy matches Err(reason) ==> (first_step(agents, orchestration, task, config, policy)
            matches StepView::Finished(result) && {
            &&& !result.success
            &&& result.output.len() == 0
            &&& result.error == Some(reason)
        }),
        first_step(agents, orchestration, task, config, policy) is Turn ==> policy is Ok,
{
}

// ---- The schema ----

proof fn lemma_joined_holds_each(parts: Seq<Seq<char>>, separator: Seq<char>, i: int)
    requires
        0 <= i < parts.len(),
    ensures
        occurs_in(parts[i], joined(parts, separator)),
    decreases parts.len(),
{
    let whole = joined(parts, separator);
    if parts.len() == 1 {
        assert(Seq::<char>::empty() + parts[i] + Seq::<char>::empty() =~= whole);
    } else if i == parts.len() - 1 {
        let lead = joined(parts.drop_last(), separator) + separator;
        assert(lead + parts[i] + Seq::<char>::empty() =~= whole);
    } else {
        let init = parts.drop_last();
        assert(init[i] == parts[i]);
        lemma_joined_holds_each(init, separator, i);
        let (before, after) = choose|before: Seq<char>, after: Seq<char>| #[trigger]
            (before + parts[i] + after) == joined(init, separator);
        assert(before + parts[i] + (after + separator + parts.last()) =~= whole);
    }
}

/// A listing shows every name on the list; an empty one says that nothing is configured.
pub proof fn law_listing_shows_every_name(names: Seq<Seq<char>>)
    ensures
        forall|i: int| 0 <= i < names.len() ==> occurs_in(#[trigger] names[i], listing(names)),
        names.len() == 0 ==> listing(names) == "(none configured)"@,
{
    assert forall|i: int| 0 <= i < names.len() implies occurs_in(
        #[trigger] names[i],
        listing(names),
    ) by {
        lemma_joined_holds_each(names, ", "@, i);
    }
}

/// The schema asks for both parameters, as texts that are not empty, and for no others; its
/// description of the first shows the name of every orchestration.
pub proof fn law_schema(names: Seq<Seq<char>>)
    ensures
        schema_tree(names) matches JsonTree::Object(schema) && {
            &&& schema["type"@] == JsonTree::Text("object"@)
            &&& schema["additionalProperties"@] == JsonTree::Bool(false)
            &&& schema["required"@] matches JsonTree::Array(required) && {
                &&& required.contains(JsonTree::Text("orchestration"@))
                &&& required.contains(JsonTree::Text("prompt"@))
            }
            &&& schema["properties"@] matches JsonTree::Object(properties) && {
                &&& properties.dom() == set!["orchestration"@, "prompt"@]
                &&& properties["orchestration"@] == text_parameter_tree(orchestration_help(names))
                &&& properties["prompt"@] is Object
            }
        },
        forall|i: int|
            0 <= i < names.len() ==> occurs_in(#[trigger] names[i], orchestration_help(names)),
        names.len() == 0 ==> occurs_in("(none configured)"@, orchestration_help(names)),
{
    reveal_strlit("type");
    reveal_strlit("additionalProperties");
    reveal_strlit("required");
    reveal_strlit("properties");
    reveal_strlit("orchestration");
    reveal_strlit("prompt");
    assert("type"@.len() == 4 && "additionalProperties"@.len() == 20);
    assert("required"@.len() == 8 && "properties"@.len() == 10);
    assert("orchestration"@.len() == 13 && "prompt"@.len() == 6);
    if let JsonTree::Object(schema) = schema_tree(names) {
        if let JsonTree::Object(properties) = schema["properties"@] {
            assert(properties.dom() =~= set!["orchestration"@, "prompt"@]);
        }
        if let JsonTree::Array(required) = schema["required"@] {
            assert(required[0] == JsonTree::Text("orchestration"@));
            assert(required[1] == JsonTree::Text("prompt"@));
        }
    }
    law_listing_shows_every_name(names);
    let lead = "Name of the orchestration to run. Available: "@;
    assert forall|i: int| 0 <= i < names.len() implies occurs_in(
        #[trigger] names[i],
        orchestration_help(names),
    ) by {
        let (before, after) = choose|before: Seq<char>, after: Seq<char>| #[trigger]
            (before + names[i] + after) == listing(names);
        assert((lead + before) + names[i] + after =~= orchestration_help(names));
    }
    if names.len() == 0 {
        assert(lead + "(none configured)"@ + Seq::<char>::empty() =~= orchestration_help(names));
    }
}

} // verus!
