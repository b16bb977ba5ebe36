//! One agent's turn: which way it is run, with what, and what its answer counts for.

use vstd::prelude::*;

use crate::config::{DelegateAgentConfig, DelegateToolConfig};
use crate::orchestrator::{provider_failure, OrchestratorTool};
use crate::prompt::{
    build_enriched_system_prompt, no_prompt_extras, prompt_sections, rendered_or_empty,
    sections_with, skill_request, skill_request_of, system_prompt_of, PromptExtras, PromptSection,
    SkillRequest, SkillsPromptInjectionMode,
};
use crate::selection::{indices, select_skills, tracked_tools, usable_skills};
use crate::text::{decimal, decimal_text, opt_text, same_text, texts, trim, trimmed};
use crate::tracking::{wrappers_view, TrackingToolWrapper, TrackingToolWrapperView};
use std::path::PathBuf;

verus! {

/// A message of a conversation with a model.
#[derive(PartialEq, Eq, Debug)]
pub enum ChatMessage {
    System(String),
    User(String),
}

/// The contents of a [`ChatMessage`].
pub enum ChatMessageView {
    System(Seq<char>),
    User(Seq<char>),
}

impl View for ChatMessage {
    type V = ChatMessageView;

    open spec fn view(&self) -> ChatMessageView {
        match self {
            ChatMessage::System(text) => ChatMessageView::System(text@),
            ChatMessage::User(text) => ChatMessageView::User(text@),
        }
    }
}

/// The contents of a conversation.
pub open spec fn messages_view(messages: Seq<ChatMessage>) -> Seq<ChatMessageView> {
    messages.map_values(|m: ChatMessage| m@)
}

/// One question to a model, without tools.
pub struct ChatRequest<'a> {
    pub system_prompt: Option<&'a str>,
    pub prompt: &'a str,
    pub model: &'a str,
    pub timeout_secs: u64,
}

/// What a conversation with tools can have besides. An orchestrated one has none of it.
#[derive(Clone, Copy, PartialEq, Eq, Debug)]
pub struct LoopExtras {
    /// Someone observes what goes on.
    pub observed: bool,
    /// Tool calls wait for approval.
    pub approval: bool,
    /// A reply goes to a target of the channel's.
    pub channel_reply_target: bool,
    /// The conversation can be cancelled.
    pub cancellation: bool,
    /// The answer is given out piece by piece.
    pub deltas: bool,
    pub hooks: bool,
    /// Tools can be activated on the way.
    pub activated_tools: bool,
    /// The model can be switched on the way.
    pub model_switch: bool,
    /// A budget is shared with other conversations.
    pub shared_budget: bool,
    /// The pace is another than the default one.
    pub pacing: bool,
}

/// Nothing besides.
pub open spec fn no_extras() -> LoopExtras {
    LoopExtras {
        observed: false,
        approval: false,
        channel_reply_target: false,
        cancellation: false,
        deltas: false,
        hooks: false,
        activated_tools: false,
        model_switch: false,
        shared_budget: false,
        pacing: false,
    }
}

/// A conversation with a model that may call tools. The multimodal settings `M` are the
/// host's.
pub struct ToolLoopRequest<'a, M> {
    pub history: Vec<ChatMessage>,
    /// The tools that may be called.
    pub sub_tools: Vec<TrackingToolWrapper>,
    pub provider: &'a str,
    pub model: &'a str,
    pub silent: bool,
    pub channel: &'static str,
    pub multimodal: &'a M,
    pub max_iterations: usize,
    /// Tools that may not be called after all.
    pub excluded_tools: Vec<String>,
    /// Tools that may be called twice with the same arguments.
    pub dedup_exempt_tools: Vec<String>,
    /// A bound on what is kept of one tool's result.
    pub max_tool_result_chars: usize,
    /// A bound on the conversation; zero for none.
    pub context_token_budget: usize,
    pub extras: LoopExtras,
    pub timeout_secs: u64,
}

/// The sections to render for an agent, and what to render them with.
pub struct PromptPlan<'a> {
    pub sections: Vec<PromptSection>,
    pub workspace_dir: &'a PathBuf,
    pub model: &'a str,
    /// The agent's tools.
    pub sub_tools: &'a Vec<TrackingToolWrapper>,
    /// The positions of the agent's skills among the loaded ones.
    pub skills: Vec<usize>,
    pub skills_prompt_mode: SkillsPromptInjectionMode,
    /// How the model is told to call tools.
    pub dispatcher_instructions: &'static str,
    pub extras: PromptExtras,
}

/// What came of asking the model.
pub enum Reply {
    Answered(String),
    Failed(String),
    TimedOut,
}

/// The contents of a [`Reply`].
pub enum ReplyView {
    Answered(Seq<char>),
    Failed(Seq<char>),
    TimedOut,
}

impl View for Reply {
    type V = ReplyView;

    open spec fn view(&self) -> ReplyView {
        match self {
            Reply::Answered(text) => ReplyView::Answered(text@),
            Reply::Failed(error) => ReplyView::Failed(error@),
            Reply::TimedOut => ReplyView::TimedOut,
        }
    }
}

/// The contents of an agent's outcome: its output, or why it has none.
pub open spec fn outcome_view(outcome: Result<String, String>) -> Result<Seq<char>, Seq<char>> {
    match outcome {
        Ok(output) => Ok(output@),
        Err(error) => Err(error@),
    }
}

/// What an agent's outcome is, by the reply that its model gave within the time allowed.
pub open spec fn outcome_of(
    agent_name: Seq<char>,
    timeout_secs: u64,
    reply: ReplyView,
) -> Result<Seq<char>, Seq<char>> {
    match reply {
        ReplyView::Answered(text) => if trimmed(text).len() == 0 {
            Ok("[Empty response]"@)
        } else {
            Ok(text)
        },
        ReplyView::Failed(error) => Err("Agent '"@ + agent_name + "' failed: "@ + error),
        ReplyView::TimedOut => Err(
            "Agent '"@ + agent_name + "' timed out after "@ + decimal_text(timeout_secs as nat)
                + "s"@,
        ),
    }
}

/// An agent whose model is being asked.
pub struct PendingReply<'a> {
    pub agent_name: &'a str,
    pub timeout_secs: u64,
}

impl<'a> PendingReply<'a> {
    /// The agent's outcome.
    pub fn finish(self, reply: Reply) -> (r: Result<String, String>)
        ensures
            outcome_view(r) == outcome_of(self.agent_name@, self.timeout_secs, reply@),
    {
        match reply {
            Reply::Answered(text) => if trim(text.as_str()).is_empty() {
                Ok("[Empty response]".to_owned())
            } else {
                Ok(text)
            },
            Reply::Failed(error) => {
                let mut message = "Agent '".to_owned();
                message.append(self.agent_name);
                message.append("' failed: ");
                message.append(error.as_str());
                Err(message)
            },
            Reply::TimedOut => {
                let mut message = "Agent '".to_owned();
                message.append(self.agent_name);
                message.append("' timed out after ");
                message.append(decimal(self.timeout_secs).as_str());
                message.append("s");
                Err(message)
            },
        }
    }
}

/// The time for a run with tools: no more than the agent's share, and no more than the
/// bound on such runs, the agent's own if it has one.
pub open spec fn effective_timeout(
    timeout_secs: u64,
    agent_config: DelegateAgentConfig,
    delegate_config: DelegateToolConfig,
) -> u64 {
    let bound: u64 = match agent_config.agentic_timeout_secs {
        Some(secs) => secs,
        None => delegate_config.agentic_timeout_secs,
    };
    if timeout_secs <= bound {
        timeout_secs
    } else {
        bound
    }
}

/// Whether one of an agent's tools is the shell.
pub open spec fn has_shell_in(tools: Seq<TrackingToolWrapperView>) -> bool {
    exists|k: int| 0 <= k < tools.len() && (#[trigger] tools[k]).name == "shell"@
}

/// The conversation that an agent with tools starts from.
pub open spec fn first_messages(
    system_prompt: Option<Seq<char>>,
    prompt: Seq<char>,
) -> Seq<ChatMessageView> {
    match system_prompt {
        Some(text) => seq![ChatMessageView::System(text), ChatMessageView::User(prompt)],
        None => seq![ChatMessageView::User(prompt)],
    }
}

/// An agent with tools, whose system prompt is being prepared.
pub struct PendingPrompt<'a, M> {
    pub agent_name: &'a str,
    pub config: &'a DelegateAgentConfig,
    pub prompt: &'a str,
    pub sub_tools: Vec<TrackingToolWrapper>,
    pub has_shell: bool,
    pub workspace_dir: &'a PathBuf,
    pub multimodal: &'a M,
    pub timeout_secs: u64,
}

impl<'a, M> PendingPrompt<'a, M> {
    /// How to load the agent's skills, if it has any.
    pub fn skill_request(&self) -> (r: Option<SkillRequest>)
        ensures
            match r {
                Some(request) => skill_request_of(*self.config) == Some(request@),
                None => skill_request_of(*self.config) is None,
            },
    {
        skill_request(self.config)
    }

    /// What to render, by the names of the skills that were loaded. Skills are shown in
    /// full, and nothing is said on how to call tools.
    pub fn plan_prompt<'b>(&'b self, loaded: &Vec<String>) -> (r: PromptPlan<'b>)
        ensures
            indices(r.skills@) == usable_skills(
                texts(loaded@),
                texts(self.config.allowed_skills@),
            ),
            forall|k: int| 0 <= k < r.skills@.len() ==> #[trigger] r.skills@[k] < loaded@.len(),
            r.sections@ == sections_with(r.skills@.len() > 0),
            r.workspace_dir == self.workspace_dir,
            r.model@ == self.config.model@,
            *r.sub_tools == self.sub_tools,
            r.skills_prompt_mode is Full,
            r.dispatcher_instructions@.len() == 0,
            r.extras == no_prompt_extras(),
    {
        let skills = select_skills(loaded, &self.config.allowed_skills);
        let sections = prompt_sections(skills.len() > 0);
        proof {
            reveal_strlit("");
        }
        PromptPlan {
            sections,
            workspace_dir: self.workspace_dir,
            model: self.config.model.as_str(),
            sub_tools: &self.sub_tools,
            skills,
            skills_prompt_mode: SkillsPromptInjectionMode::Full,
            dispatcher_instructions: "",
            extras: PromptExtras {
                identity: false,
                tool_descriptions: false,
                security_summary: false,
                autonomy_level: false,
            },
        }
    }

    /// The conversation to run, once the sections are rendered.
    pub fn complete(self, rendered: Option<String>) -> (r: (
        ToolLoopRequest<'a, M>,
        PendingReply<'a>,
    ))
        ensures
            messages_view(r.0.history@) == first_messages(
                system_prompt_of(
                    rendered_or_empty(rendered),
                    self.has_shell,
                    opt_text(self.config.system_prompt),
                ),
                self.prompt@,
            ),
            r.0.sub_tools == self.sub_tools,
            r.0.provider@ == self.config.provider@,
            r.0.model@ == self.config.model@,
            r.0.silent,
            r.0.channel@ == "orchestrate"@,
            r.0.multimodal == self.multimodal,
            r.0.max_iterations == self.config.max_iterations,
            r.0.excluded_tools@.len() == 0,
            r.0.dedup_exempt_tools@.len() == 0,
            r.0.max_tool_result_chars == 20000,
            r.0.context_token_budget == 0,
            r.0.extras == no_extras(),
            r.0.timeout_secs == self.timeout_secs,
            r.1.agent_name == self.agent_name,
            r.1.timeout_secs == self.timeout_secs,
    {
        let mut history: Vec<ChatMessage> = Vec::new();
        let system_prompt = build_enriched_system_prompt(self.config, self.has_shell, rendered);
        let ghost text = opt_text(system_prompt);
        match system_prompt {
            Some(system_prompt) => {
                history.push(ChatMessage::System(system_prompt));
            },
            None => {},
        }
        history.push(ChatMessage::User(self.prompt.to_owned()));
        assert(messages_view(history@) =~= first_messages(text, self.prompt@));
        (
            ToolLoopRequest {
                history,
                sub_tools: self.sub_tools,
                provider: self.config.provider.as_str(),
                model: self.config.model.as_str(),
                silent: true,
                channel: "orchestrate",
                multimodal: self.multimodal,
                max_iterations: self.config.max_iterations,
                excluded_tools: Vec::new(),
                dedup_exempt_tools: Vec::new(),
                max_tool_result_chars: 20000,
                context_token_budget: 0,
                extras: LoopExtras {
                    observed: false,
                    approval: false,
                    channel_reply_target: false,
                    cancellation: false,
                    deltas: false,
                    hooks: false,
                    activated_tools: false,
                    model_switch: false,
                    shared_budget: false,
                    pacing: false,
                },
                timeout_secs: self.timeout_secs,
            },
            PendingReply { agent_name: self.agent_name, timeout_secs: self.timeout_secs },
        )
    }
}

/// How an agent goes on once the host has tried to create its provider `P`.
pub enum AgentStep<'a, P, M> {
    /// The agent is done.
    Finished(Result<String, String>),
    /// The model is to be asked once, through this provider.
    Chat(P, ChatRequest<'a>, PendingReply<'a>),
    /// The agent's system prompt is to be prepared, for a run with tools through this
    /// provider.
    Prepare(P, PendingPrompt<'a, M>),
}

/// Whether an agent is run with tools: it is set up so, and there are some for it.
pub open spec fn runs_with_tools(
    agent_config: DelegateAgentConfig,
    tools: Seq<TrackingToolWrapperView>,
) -> bool {
    agent_config.agentic && tools.len() > 0
}

fn has_shell_tool(tools: &Vec<TrackingToolWrapper>) -> (r: bool)
    ensures
        r == has_shell_in(wrappers_view(tools@)),
{
    let mut k: usize = 0;
    while k < tools.len()
        invariant
            k <= tools.len(),
            forall|j: int| 0 <= j < k ==> (#[trigger] wrappers_view(tools@)[j]).name != "shell"@,
        decreases tools.len() - k,
    {
        assert(wrappers_view(tools@)[k as int] == tools@[k as int]@);
        if same_text(tools[k].name(), "shell") {
            return true;
        }
        k = k + 1;
    }
    false
}

impl<T, S, R, M> OrchestratorTool<T, S, R, M> {
    /// Takes up an agent once the host has tried to create its provider.
    ///
    /// Without a provider the agent fails. One that is not set up for tools, or that gets
    /// none, is asked once, with the operator's instructions alone. `parent_tools` are the
    /// names of the tools that the parent has now.
    pub fn execute_agent<'a, P>(
        &'a self,
        agent_name: &'a str,
        agent_config: &'a DelegateAgentConfig,
        prompt: &'a str,
        timeout_secs: u64,
        parent_tools: &Vec<String>,
        created: Result<P, String>,
    ) -> (r: AgentStep<'a, P, M>)
        ensures
            ({
                let tools = tracked_tools(
                    texts(parent_tools@),
                    texts(agent_config.allowed_tools@),
                );
                match created {
                    Err(error) => r matches AgentStep::Finished(outcome) && outcome_view(outcome)
                        == Err::<Seq<char>, Seq<char>>(
                        provider_failure(agent_config.provider@, agent_name@, error@),
                    ),
                    Ok(provider) => if runs_with_tools(*agent_config, tools) {
                        &&& r matches AgentStep::Prepare(handed_on, pending)
                        &&& handed_on == provider
                        &&& pending.agent_name == agent_name
                        &&& pending.config == agent_config
                        &&& pending.prompt == prompt
                        &&& wrappers_view(pending.sub_tools@) == tools
                        &&& pending.has_shell == has_shell_in(tools)
                        &&& *pending.workspace_dir == self.workspace_dir
                        &&& *pending.multimodal == self.multimodal_config
                        &&& pending.timeout_secs == effective_timeout(
                            timeout_secs,
                            *agent_config,
                            self.delegate_config,
                        )
                    } else {
                        &&& r matches AgentStep::Chat(handed_on, request, pending)
                        &&& handed_on == provider
                        &&& (match request.system_prompt {
                            Some(text) => opt_text(agent_config.system_prompt) == Some(text@),
                            None => agent_config.system_prompt is None,
                        })
                        &&& request.prompt == prompt
                        &&& request.model@ == agent_config.model@
                        &&& request.timeout_secs == timeout_secs
                        &&& pending.agent_name == agent_name
                        &&& pending.timeout_secs == timeout_secs
                    },
                }
            }),
    {
        let provider = match self.create_provider_for_agent(agent_config, agent_name, created) {
            Ok(provider) => provider,
            Err(result) => {
                let error = match result.error {
                    Some(error) => error,
                    None => String::new(),
                };
                return AgentStep::Finished(Err(error));
            },
        };
        let sub_tools = self.create_tracked_tools(agent_config, parent_tools);
        assert(wrappers_view(sub_tools@).len() == sub_tools@.len());
        if sub_tools.len() == 0 || !agent_config.agentic {
            let system_prompt = match &agent_config.system_prompt {
                Some(text) => Some(text.as_str()),
                None => None,
            };
            return AgentStep::Chat(
                provider,
                ChatRequest {
                    system_prompt,
                    prompt,
                    model: agent_config.model.as_str(),
                    timeout_secs,
                },
                PendingReply { agent_name, timeout_secs },
            );
        }
        let has_shell = has_shell_tool(&sub_tools);
        let bound: u64 = match agent_config.agentic_timeout_secs {
            Some(secs) => secs,
            None => self.delegate_config.agentic_timeout_secs,
        };
        let effective: u64 = if timeout_secs <= bound {
            timeout_secs
        } else {
            bound
        };
        AgentStep::Prepare(
            provider,
            PendingPrompt {
                agent_name,
                config: agent_config,
                prompt,
                sub_tools,
                has_shell,
                workspace_dir: &self.workspace_dir,
                multimodal: &self.multimodal_config,
                timeout_secs: effective,
            },
        )
    }
}

} // verus!
