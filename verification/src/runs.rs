//! What holds of whole runs of an orchestration, from the security policy's consent to the
//! result.

use vstd::prelude::*;

use crate::agent::{outcome_of, ReplyView};
use crate::config::{DelegateAgentConfig, OrchestrationConfig};
use crate::json::json_text;
use crate::laws::law_time_is_shared_out;
use crate::pipeline::{
    agent_prompt_of, agent_share, failed_agent_view, first_run, first_step, step_after, step_at,
    success_view, unknown_agent_view, RunView, StepView,
};
use crate::text::{occurs_in, texts, trimmed};
use crate::tracking::{report_text, report_tree, TrackedToolCallView};

verus! {

broadcast use vstd::string::group_string_axioms;

/// The end of an agent's turn: its outcome, and the tool calls that were made up to there.
pub struct TurnEnd {
    pub outcome: Result<Seq<char>, Seq<char>>,
    pub calls: Seq<TrackedToolCallView>,
}

/// How a run stands after these ends of turns. A run that is over stays as it is.
pub open spec fn after_turns(
    agents: Map<Seq<char>, DelegateAgentConfig>,
    first: StepView,
    ends: Seq<TurnEnd>,
) -> StepView
    decreases ends.len(),
{
    if ends.len() == 0 {
        first
    } else {
        match after_turns(agents, first, ends.drop_last()) {
            StepView::Turn(run) => step_after(
                agents,
                run,
                ends.last().outcome,
                ends.last().calls,
            ),
            StepView::Finished(result) => StepView::Finished(result),
        }
    }
}

/// The first `n` agents of an orchestration are known.
pub open spec fn known_up_to(
    agents: Map<Seq<char>, DelegateAgentConfig>,
    names: Seq<Seq<char>>,
    n: int,
) -> bool {
    forall|i: int| 0 <= i < n ==> #[trigger] agents.contains_key(names[i])
}

/// The first `n` turns ended with an output.
pub open spec fn fine_up_to(ends: Seq<TurnEnd>, n: int) -> bool {
    forall|i: int| 0 <= i < n ==> (#[trigger] ends[i]).outcome is Ok
}

/// What is handed on after `n` turns: the task, or the last output.
pub open spec fn handed_on(task: Seq<char>, ends: Seq<TurnEnd>, n: int) -> Seq<char> {
    if n == 0 {
        task
    } else {
        match ends[n - 1].outcome {
            Ok(output) => output,
            Err(_) => Seq::empty(),
        }
    }
}

/// The tool calls made in the first `n` turns.
pub open spec fn calls_up_to(ends: Seq<TurnEnd>, n: int) -> Seq<TrackedToolCallView> {
    if n == 0 {
        Seq::empty()
    } else {
        ends[n - 1].calls
    }
}

/// A run that the security policy consented to, at its start.
pub open spec fn consented(
    agents: Map<Seq<char>, DelegateAgentConfig>,
    orchestration: Seq<char>,
    task: Seq<char>,
    config: OrchestrationConfig,
) -> StepView {
    first_step(agents, orchestration, task, config, Ok(()))
}

proof fn lemma_fine_turns(
    agents: Map<Seq<char>, DelegateAgentConfig>,
    orchestration: Seq<char>,
    task: Seq<char>,
    config: OrchestrationConfig,
    ends: Seq<TurnEnd>,
    n: int,
)
    requires
        0 <= n <= ends.len(),
        n <= config.agents@.len(),
        fine_up_to(ends, n),
        known_up_to(agents, texts(config.agents@), n),
    ensures
        after_turns(agents, consented(agents, orchestration, task, config), ends.take(n))
            == step_at(
            agents,
            (RunView {
                position: n,
                input: handed_on(task, ends, n),
                ..first_run(orchestration, task, config)
            }),
            calls_up_to(ends, n),
        ),
    decreases n,
{
    let first = consented(agents, orchestration, task, config);
    if n == 0 {
        assert(ends.take(0).len() == 0);
    } else {
        lemma_fine_turns(agents, orchestration, task, config, ends, n - 1);
        assert(ends.take(n).drop_last() =~= ends.take(n - 1));
        assert(ends.take(n).last() == ends[n - 1]);
        assert(agents.contains_key(texts(config.agents@)[n - 1]));
    }
}

/// Once a run is over, nothing that comes later changes its result.
pub proof fn law_over_is_over(
    agents: Map<Seq<char>, DelegateAgentConfig>,
    first: StepView,
    ends: Seq<TurnEnd>,
    n: int,
)
    requires
        0 <= n <= ends.len(),
        after_turns(agents, first, ends.take(n)) is Finished,
    ensures
        after_turns(agents, first, ends) == after_turns(agents, first, ends.take(n)),
    decreases ends.len(),
{
    if n < ends.len() {
        assert(ends.drop_last().take(n) =~= ends.take(n));
        law_over_is_over(agents, first, ends.drop_last(), n);
    } else {
        assert(ends.take(n) =~= ends);
    }
}

/// Agents run one after the other, in the orchestration's order, and each is handed the
/// output of the one before it. After some turns that all gave an output it is the next
/// agent's turn; the first agent is asked the task, and each later one is given the last
/// output and the task. The task, the list of agents and each agent's time stay the same.
pub proof fn law_agents_run_in_order(
    agents: Map<Seq<char>, DelegateAgentConfig>,
    orchestration: Seq<char>,
    task: Seq<char>,
    config: OrchestrationConfig,
    ends: Seq<TurnEnd>,
)
    requires
        ends.len() < config.agents@.len(),
        fine_up_to(ends, ends.len() as int),
        known_up_to(agents, texts(config.agents@), ends.len() as int + 1),
    ensures
        after_turns(agents, consented(agents, orchestration, task, config), ends)
            matches StepView::Turn(run) && {
            &&& run.position == ends.len()
            &&& run.agents == texts(config.agents@)
            &&& run.orchestration == orchestration
            &&& run.task == task
            &&& run.share == agent_share(config.timeout_secs, config.agents@.len())
            &&& config.agents@.len() * run.share <= config.timeout_secs < config.agents@.len() * (
            run.share + 1)
            &&& agent_prompt_of(run) == (if ends.len() == 0 {
                task
            } else {
                "[Previous step result]\n"@ + ends.last().outcome->Ok_0
                    + "\n\n[Original task]\n"@ + task
            })
        },
{
    let n = ends.len() as int;
    lemma_fine_turns(agents, orchestration, task, config, ends, n);
    assert(ends.take(n) =~= ends);
    assert(agents.contains_key(texts(config.agents@)[n]));
    law_time_is_shared_out(config.timeout_secs, config.agents@.len());
}

/// A run whose agents are all known and all give an output succeeds. Its response is the
/// last agent's output, and its report has every tool call.
pub proof fn law_all_fine_succeeds(
    agents: Map<Seq<char>, DelegateAgentConfig>,
    orchestration: Seq<char>,
    task: Seq<char>,
    config: OrchestrationConfig,
    ends: Seq<TurnEnd>,
)
    requires
        ends.len() == config.agents@.len(),
        ends.len() > 0,
        fine_up_to(ends, ends.len() as int),
        known_up_to(agents, texts(config.agents@), ends.len() as int),
    ensures
        after_turns(agents, consented(agents, orchestration, task, config), ends)
            == StepView::Finished(success_view(ends.last().outcome->Ok_0, ends.last().calls)),
        after_turns(agents, consented(agents, orchestration, task, config), ends)
            matches StepView::Finished(result) && {
            &&& result.success
            &&& result.error is None
            &&& result.output == json_text(
                report_tree(ends.last().outcome->Ok_0, ends.last().calls),
            )
        },
{
    let n = ends.len() as int;
    lemma_fine_turns(agents, orchestration, task, config, ends, n);
    assert(ends.take(n) =~= ends);
}

/// The first agent that fails ends the run, whatever would have come after it. The result
/// has the agent's error and the tool calls made up to there.
pub proof fn law_first_failure_ends_the_run(
    agents: Map<Seq<char>, DelegateAgentConfig>,
    orchestration: Seq<char>,
    task: Seq<char>,
    config: OrchestrationConfig,
    ends: Seq<TurnEnd>,
    n: int,
)
    requires
        0 <= n < ends.len(),
        n < config.agents@.len(),
        fine_up_to(ends, n),
        known_up_to(agents, texts(config.agents@), n + 1),
        ends[n].outcome is Err,
    ensures
        after_turns(agents, consented(agents, orchestration, task, config), ends)
            == StepView::Finished(
            failed_agent_view(
                texts(config.agents@)[n],
                ends[n].outcome->Err_0,
                ends[n].calls,
            ),
        ),
        after_turns(agents, consented(agents, orchestration, task, config), ends)
            matches StepView::Finished(result) && {
            &&& !result.success
            &&& result.error == Some(ends[n].outcome->Err_0)
            &&& result.output == json_text(
                report_tree(
                    "Failed at agent '"@ + config.agents@[n]@ + "': "@ + ends[n].outcome->Err_0,
                    ends[n].calls,
                ),
            )
        },
{
    lemma_fine_turns(agents, orchestration, task, config, ends, n);
    assert(agents.contains_key(texts(config.agents@)[n]));
    let first = consented(agents, orchestration, task, config);
    assert(ends.take(n + 1).drop_last() =~= ends.take(n));
    assert(ends.take(n + 1).last() == ends[n]);
    law_over_is_over(agents, first, ends, n + 1);
}

/// The first agent that is not known ends the run when its turn comes, and not before: the
/// agents ahead of it have run. The result has the tool calls made up to there.
pub proof fn law_unknown_agent_ends_the_run(
    agents: Map<Seq<char>, DelegateAgentConfig>,
    orchestration: Seq<char>,
    task: Seq<char>,
    config: OrchestrationConfig,
    ends: Seq<TurnEnd>,
    n: int,
)
    requires
        0 <= n <= ends.len(),
        n < config.agents@.len(),
        fine_up_to(ends, n),
        known_up_to(agents, texts(config.agents@), n),
        !agents.contains_key(texts(config.agents@)[n]),
    ensures
        after_turns(agents, consented(agents, orchestration, task, config), ends)
            == StepView::Finished(
            unknown_agent_view(orchestration, texts(config.agents@)[n], calls_up_to(ends, n)),
        ),
        after_turns(agents, consented(agents, orchestration, task, config), ends)
            matches StepView::Finished(result) && {
            &&& !result.success
            &&& result.error == Some(
                "Orchestration '"@ + orchestration + "' references unknown agent '"@
                    + config.agents@[n]@ + "'"@,
            )
            &&& result.output == json_text(
                report_tree(
                    "Unknown agent '"@ + config.agents@[n]@ + "' in orchestration '"@
                        + orchestration + "'"@,
                    calls_up_to(ends, n),
                ),
            )
        },
        forall|k: int|
            0 <= k < n ==> after_turns(
                agents,
                consented(agents, orchestration, task, config),
                #[trigger] ends.take(k),
            ) is Turn,
{
    let first = consented(agents, orchestration, task, config);
    lemma_fine_turns(agents, orchestration, task, config, ends, n);
    law_over_is_over(agents, first, ends, n);
    assert forall|k: int| 0 <= k < n implies after_turns(
        agents,
        first,
        #[trigger] ends.take(k),
    ) is Turn by {
        lemma_fine_turns(agents, orchestration, task, config, ends, k);
        assert(agents.contains_key(texts(config.agents@)[k]));
    }
}

/// The turns of a run that is still going on are fine so far, and the run stands where their
/// number says.
proof fn lemma_going_on(
    agents: Map<Seq<char>, DelegateAgentConfig>,
    orchestration: Seq<char>,
    task: Seq<char>,
    config: OrchestrationConfig,
    ends: Seq<TurnEnd>,
)
    requires
        after_turns(agents, consented(agents, orchestration, task, config), ends) is Turn,
    ensures
        ends.len() < config.agents@.len(),
        fine_up_to(ends, ends.len() as int),
        known_up_to(agents, texts(config.agents@), ends.len() as int + 1),
        after_turns(agents, consented(agents, orchestration, task, config), ends)->Turn_0 == (
        RunView {
            position: ends.len() as int,
            input: handed_on(task, ends, ends.len() as int),
            ..first_run(orchestration, task, config)
        }),
    decreases ends.len(),
{
    if ends.len() > 0 {
        let before = ends.drop_last();
        lemma_going_on(agents, orchestration, task, config, before);
        assert forall|i: int| 0 <= i < ends.len() implies (#[trigger] ends[i]).outcome is Ok by {
            if i < before.len() {
                assert(before[i] == ends[i]);
            }
        }
    }
}

/// A run succeeds only if each of its agents is known and gave an output; and then the
/// result is the last output, with every tool call made up to there.
pub proof fn law_success_only_if_all_fine(
    agents: Map<Seq<char>, DelegateAgentConfig>,
    orchestration: Seq<char>,
    task: Seq<char>,
    config: OrchestrationConfig,
    ends: Seq<TurnEnd>,
)
    requires
        config.agents@.len() > 0,
        after_turns(agents, consented(agents, orchestration, task, config), ends)
            matches StepView::Finished(result) && result.success,
    ensures
        ends.len() >= config.agents@.len(),
        fine_up_to(ends, config.agents@.len() as int),
        known_up_to(agents, texts(config.agents@), config.agents@.len() as int),
        after_turns(agents, consented(agents, orchestration, task, config), ends)
            == StepView::Finished(
            success_view(
                handed_on(task, ends, config.agents@.len() as int),
                calls_up_to(ends, config.agents@.len() as int),
            ),
        ),
    decreases ends.len(),
{
    let first = consented(agents, orchestration, task, config);
    let n = config.agents@.len() as int;
    if ends.len() > 0 {
        let before = ends.drop_last();
        match after_turns(agents, first, before) {
            StepView::Turn(run) => {
                lemma_going_on(agents, orchestration, task, config, before);
                assert(ends.len() == n);
                assert forall|i: int| 0 <= i < n implies (#[trigger] ends[i]).outcome is Ok by {
                    if i < before.len() {
                        assert(before[i] == ends[i]);
                    }
                }
            },
            StepView::Finished(_) => {
                law_success_only_if_all_fine(agents, orchestration, task, config, before);
                assert forall|i: int| 0 <= i < n implies (#[trigger] ends[i]).outcome is Ok by {
                    assert(before[i] == ends[i]);
                }
                assert(before[n - 1] == ends[n - 1]);
            },
        }
    }
}

/// A run is over after at most as many turns as the orchestration has agents.
pub proof fn law_run_ends(
    agents: Map<Seq<char>, DelegateAgentConfig>,
    orchestration: Seq<char>,
    task: Seq<char>,
    config: OrchestrationConfig,
    ends: Seq<TurnEnd>,
)
    requires
        ends.len() >= config.agents@.len(),
    ensures
        after_turns(agents, consented(agents, orchestration, task, config), ends) is Finished,
{
    if after_turns(agents, consented(agents, orchestration, task, config), ends) is Turn {
        lemma_going_on(agents, orchestration, task, config, ends);
    }
}

/// Whatever ends a turn, a result that follows reports all tool calls made so far; and it
/// says it failed just when it gives an error.
pub proof fn law_result_reports_calls(
    agents: Map<Seq<char>, DelegateAgentConfig>,
    run: RunView,
    end: TurnEnd,
)
    ensures
        step_after(agents, run, end.outcome, end.calls) matches StepView::Finished(result) ==> {
            &&& exists|response: Seq<char>|
                result.output == #[trigger] report_text(response, end.calls)
            &&& exists|response: Seq<char>|
                result.output == json_text(#[trigger] report_tree(response, end.calls))
            &&& result.success <==> result.error is None
        },
{
}

/// Every agent is told the task.
pub proof fn law_every_agent_is_told_the_task(run: RunView)
    requires
        run.position == 0 ==> run.input == run.task,
    ensures
        occurs_in(run.task, agent_prompt_of(run)),
        run.position != 0 ==> occurs_in(run.input, agent_prompt_of(run)),
{
    let prompt = agent_prompt_of(run);
    if run.position == 0 {
        assert(Seq::<char>::empty() + run.task + Seq::<char>::empty() =~= prompt);
    } else {
        let lead = "[Previous step result]\n"@ + run.input + "\n\n[Original task]\n"@;
        assert(lead + run.task + Seq::<char>::empty() =~= prompt);
        assert("[Previous step result]\n"@ + run.input + ("\n\n[Original task]\n"@ + run.task)
            =~= prompt);
    }
}

/// An agent's output is never blank: where the model gave none, a note stands for it.
pub proof fn law_output_is_never_blank(agent_name: Seq<char>, timeout_secs: u64, reply: ReplyView)
    ensures
        outcome_of(agent_name, timeout_secs, reply) matches Ok(output) ==> trimmed(output).len()
            > 0,
        outcome_of(agent_name, timeout_secs, reply) is Ok <==> reply is Answered,
{
    reveal_strlit("[Empty response]");
    let note = "[Empty response]"@;
    assert(note.first() == '[' && note.last() == ']');
    assert(trimmed(note) == note);
}

} // verus!
