//! The system prompt of an agent that calls tools.
//!
//! It is kept small: the host renders the sections named here and no others, and the
//! operator's own instructions follow.

use vstd::prelude::*;

use crate::config::DelegateAgentConfig;
use crate::text::{opt_text, trim, trimmed};

verus! {

/// A section of a system prompt, which the host renders.
#[derive(Clone, Copy, PartialEq, Eq, Debug)]
pub enum PromptSection {
    Tools,
    Safety,
    DateTime,
    Skills,
}

/// How much of each skill a system prompt shows.
#[derive(Clone, Copy, PartialEq, Eq, Debug)]
pub enum SkillsPromptInjectionMode {
    /// All of it, with its instructions.
    Full,
    /// A summary; the instructions are read on demand.
    Compact,
}

/// What a system prompt can be rendered with besides. That of an orchestrated agent is
/// rendered with none of it.
#[derive(Clone, Copy, PartialEq, Eq, Debug)]
pub struct PromptExtras {
    /// An identity for the agent.
    pub identity: bool,
    /// Descriptions of the tools other than their own.
    pub tool_descriptions: bool,
    /// A summary of the security policy.
    pub security_summary: bool,
    /// A level of autonomy other than the default one.
    pub autonomy_level: bool,
}

/// Nothing besides.
pub open spec fn no_prompt_extras() -> PromptExtras {
    PromptExtras {
        identity: false,
        tool_descriptions: false,
        security_summary: false,
        autonomy_level: false,
    }
}

/// Where an agent's skills are loaded from.
#[derive(PartialEq, Eq, Debug)]
pub enum SkillSource {
    /// The workspace's own directory of skills.
    Workspace,
    /// A directory, relative to the workspace.
    Directory(String),
}

/// The contents of a [`SkillSource`].
pub enum SkillSourceView {
    Workspace,
    Directory(Seq<char>),
}

impl View for SkillSource {
    type V = SkillSourceView;

    open spec fn view(&self) -> SkillSourceView {
        match self {
            SkillSource::Workspace => SkillSourceView::Workspace,
            SkillSource::Directory(dir) => SkillSourceView::Directory(dir@),
        }
    }
}

/// A request to load the skills of an agent.
#[derive(PartialEq, Eq, Debug)]
pub struct SkillRequest {
    pub source: SkillSource,
    /// Whether skills that bring scripts of their own may be loaded.
    pub allow_scripts: bool,
}

/// The contents of a [`SkillRequest`].
pub struct SkillRequestView {
    pub source: SkillSourceView,
    pub allow_scripts: bool,
}

impl View for SkillRequest {
    type V = SkillRequestView;

    open spec fn view(&self) -> SkillRequestView {
        SkillRequestView { source: self.source@, allow_scripts: self.allow_scripts }
    }
}

/// What is added to the system prompt of an agent that has a shell.
pub const SHELL_POLICY: &'static str = "## Shell Policy\n\n- Prefer non-destructive commands. Use `trash` over `rm` where possible.\n- Do not run commands that exfiltrate data or modify system-critical paths.\n- Avoid interactive commands that block on stdin.\n- Quote paths that may contain spaces.";

/// What is loaded for an agent. One without allowed skills loads none; a blank directory
/// counts as none given. Scripts are never allowed.
pub open spec fn skill_request_of(config: DelegateAgentConfig) -> Option<SkillRequestView> {
    if config.allowed_skills@.len() == 0 {
        None
    } else {
        Some(
            SkillRequestView {
                source: match config.skills_directory {
                    Some(dir) if trimmed(dir@).len() > 0 => SkillSourceView::Directory(dir@),
                    _ => SkillSourceView::Workspace,
                },
                allow_scripts: false,
            },
        )
    }
}

/// Says how to load an agent's skills, if it has any.
pub fn skill_request(config: &DelegateAgentConfig) -> (r: Option<SkillRequest>)
    ensures
        match r {
            Some(request) => skill_request_of(*config) == Some(request@),
            None => skill_request_of(*config) is None,
        },
{
    if config.allowed_skills.len() == 0 {
        return None;
    }
    let source = match &config.skills_directory {
        Some(dir) => if trim(dir.as_str()).is_empty() {
            SkillSource::Workspace
        } else {
            SkillSource::Directory(dir.clone())
        },
        None => SkillSource::Workspace,
    };
    Some(SkillRequest { source, allow_scripts: false })
}

/// The sections of an agent's system prompt: skills only where there are some.
pub open spec fn sections_with(has_skills: bool) -> Seq<PromptSection> {
    let base = seq![PromptSection::Tools, PromptSection::Safety, PromptSection::DateTime];
    if has_skills {
        base.push(PromptSection::Skills)
    } else {
        base
    }
}

/// The sections of an agent's system prompt, in order.
pub fn prompt_sections(has_skills: bool) -> (r: Vec<PromptSection>)
    ensures
        r@ == sections_with(has_skills),
{
    let mut r: Vec<PromptSection> = vec![
        PromptSection::Tools,
        PromptSection::Safety,
        PromptSection::DateTime,
    ];
    if has_skills {
        r.push(PromptSection::Skills);
    }
    assert(r@ =~= sections_with(has_skills));
    r
}

/// The pieces of a system prompt, one after the other.
pub open spec fn full_prompt(
    rendered: Seq<char>,
    has_shell: bool,
    operator_prompt: Option<Seq<char>>,
) -> Seq<char> {
    let policy = if has_shell {
        SHELL_POLICY@ + "\n\n"@
    } else {
        Seq::empty()
    };
    let operator = match operator_prompt {
        Some(text) => text + "\n"@,
        None => Seq::empty(),
    };
    rendered + policy + operator
}

/// The system prompt of an agent: the rendered sections, the shell policy where the agent
/// has a shell, and the operator's instructions, without white space around the whole.
/// There is none where nothing is left.
pub open spec fn system_prompt_of(
    rendered: Seq<char>,
    has_shell: bool,
    operator_prompt: Option<Seq<char>>,
) -> Option<Seq<char>> {
    let text = trimmed(full_prompt(rendered, has_shell, operator_prompt));
    if text.len() == 0 {
        None
    } else {
        Some(text)
    }
}

/// Rendered sections, where the rendering failed none.
pub open spec fn rendered_or_empty(rendered: Option<String>) -> Seq<char> {
    match rendered {
        Some(text) => text@,
        None => Seq::empty(),
    }
}

/// Puts a system prompt together from the sections that the host rendered. Where the
/// rendering failed, `rendered` is `None`, and the prompt does without them.
pub fn build_enriched_system_prompt(
    config: &DelegateAgentConfig,
    has_shell: bool,
    rendered: Option<String>,
) -> (r: Option<String>)
    ensures
        opt_text(r) == system_prompt_of(
            rendered_or_empty(rendered),
            has_shell,
            opt_text(config.system_prompt),
        ),
{
    let mut enriched = match rendered {
        Some(text) => text,
        None => String::new(),
    };
    let ghost start = enriched@;
    if has_shell {
        enriched.append(SHELL_POLICY);
        enriched.append("\n\n");
    }
    let ghost middle = enriched@;
    assert(middle =~= start + (if has_shell {
        SHELL_POLICY@ + "\n\n"@
    } else {
        Seq::empty()
    }));
    match &config.system_prompt {
        Some(operator_prompt) => {
            enriched.append(operator_prompt.as_str());
            enriched.append("\n");
        },
        None => {},
    }
    assert(enriched@ =~= full_prompt(start, has_shell, opt_text(config.system_prompt)));
    let trimmed_prompt = trim(enriched.as_str());
    if trimmed_prompt.is_empty() {
        None
    } else {
        Some(trimmed_prompt.to_owned())
    }
}

} // verus!
