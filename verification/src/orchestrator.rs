//! The orchestration tool: its settings, and how it presents itself.

use vstd::prelude::*;

use crate::config::{
    refusal, refusal_view, DelegateAgentConfig, DelegateToolConfig, OrchestrationConfig,
    ToolResult,
};
use crate::json::{
    array_value, bool_value, empty_members, insert_member, json_tree, json_trees, no_members,
    number_value, object_value, string_value, JsonTree,
};
use crate::selection::{indices, select_tools, tracked_tools};
use crate::table::NameTable;
use crate::text::{decimal_text, join, joined, opt_text, texts};
use crate::tracking::{wrappers_view, TrackingToolWrapper};
use std::path::PathBuf;

verus! {

/// `std::path::PathBuf`, a path of the host's file system.
#[verifier::external_type_specification]
#[verifier::external_body]
pub struct ExPathBuf(std::path::PathBuf);

/// The encoded bytes of a path.
pub uninterp spec fn path_bytes(path: std::path::PathBuf) -> Seq<u8>;

/// `PathBuf::new`: the empty path.
pub assume_specification[ std::path::PathBuf::new ]() -> (r: std::path::PathBuf)
    ensures
        path_bytes(r).len() == 0,
;

/// Runs several agents one after the other, each with the output of the one before it.
///
/// The handle `T` on the parent's tools, the security policy `S`, the provider options `R`
/// and the multimodal settings `M` are the host's: they are carried for it.
pub struct OrchestratorTool<T, S, R, M> {
    pub orchestrations: NameTable<OrchestrationConfig>,
    pub agents: NameTable<DelegateAgentConfig>,
    /// The parent's tools, from which the agents get theirs. What is there may change while
    /// the tool is in use.
    pub parent_tools: T,
    /// The credential of agents that have none of their own.
    pub fallback_credential: Option<String>,
    pub provider_runtime_options: R,
    pub multimodal_config: M,
    pub delegate_config: DelegateToolConfig,
    pub workspace_dir: PathBuf,
    pub security: S,
}

/// The names on a list, or a note that there are none.
pub open spec fn listing(names: Seq<Seq<char>>) -> Seq<char> {
    if names.len() == 0 {
        "(none configured)"@
    } else {
        joined(names, ", "@)
    }
}

/// Writes the names on a list, or a note that there are none.
pub fn list_names(names: &Vec<String>) -> (r: String)
    ensures
        r@ == listing(texts(names@)),
{
    if names.len() == 0 {
        "(none configured)".to_owned()
    } else {
        join(names, ", ")
    }
}

/// The description of the parameter that names the orchestration.
pub open spec fn orchestration_help(names: Seq<Seq<char>>) -> Seq<char> {
    "Name of the orchestration to run. Available: "@ + listing(names)
}

/// The schema of a parameter that is a text with at least one character.
pub open spec fn text_parameter_tree(description: Seq<char>) -> JsonTree {
    JsonTree::Object(
        empty_members().insert("type"@, JsonTree::Text("string"@)).insert(
            "minLength"@,
            JsonTree::Number(decimal_text(1)),
        ).insert("description"@, JsonTree::Text(description)),
    )
}

/// The schema of the tool's parameters.
pub open spec fn schema_tree(names: Seq<Seq<char>>) -> JsonTree {
    JsonTree::Object(
        empty_members().insert("type"@, JsonTree::Text("object"@)).insert(
            "additionalProperties"@,
            JsonTree::Bool(false),
        ).insert(
            "properties"@,
            JsonTree::Object(
                empty_members().insert(
                    "orchestration"@,
                    text_parameter_tree(orchestration_help(names)),
                ).insert(
                    "prompt"@,
                    text_parameter_tree("The task/prompt for the orchestration pipeline"@),
                ),
            ),
        ).insert(
            "required"@,
            JsonTree::Array(
                seq![JsonTree::Text("orchestration"@), JsonTree::Text("prompt"@)],
            ),
        ),
    )
}

fn text_parameter(description: String) -> (r: serde_json::Value)
    ensures
        json_tree(r) == text_parameter_tree(description@),
{
    let mut members = no_members();
    insert_member(&mut members, "type".to_owned(), string_value("string".to_owned()));
    insert_member(&mut members, "minLength".to_owned(), number_value(1));
    insert_member(&mut members, "description".to_owned(), string_value(description));
    object_value(members)
}

/// A provider that the host is to create: its name, the credential to use, and the host's
/// own options `R`.
pub struct ProviderRequest<'a, R> {
    pub provider: &'a str,
    pub credential: Option<&'a str>,
    pub options: &'a R,
}

/// The first of two texts that is there.
pub open spec fn first_of(a: Option<Seq<char>>, b: Option<Seq<char>>) -> Option<Seq<char>> {
    if a is Some {
        a
    } else {
        b
    }
}

/// Why an agent has no provider.
pub open spec fn provider_failure(
    provider: Seq<char>,
    agent_name: Seq<char>,
    error: Seq<char>,
) -> Seq<char> {
    "Failed to create provider '"@ + provider + "' for agent '"@ + agent_name + "': "@ + error
}

impl<T, S, R, M> OrchestratorTool<T, S, R, M> {
    /// A tool with these orchestrations and agents. Its workspace path is empty, and its
    /// other settings are the defaults.
    pub fn new(
        orchestrations: NameTable<OrchestrationConfig>,
        agents: NameTable<DelegateAgentConfig>,
        fallback_credential: Option<String>,
        security: S,
        provider_runtime_options: R,
    ) -> (r: Self) where T: Default, M: Default
        ensures
            r.orchestrations == orchestrations,
            r.agents == agents,
            call_ensures(T::default, (), r.parent_tools),
            r.fallback_credential == fallback_credential,
            r.provider_runtime_options == provider_runtime_options,
            call_ensures(M::default, (), r.multimodal_config),
            r.delegate_config.timeout_secs == 120,
            r.delegate_config.agentic_timeout_secs == 300,
            path_bytes(r.workspace_dir).len() == 0,
            r.security == security,
    {
        OrchestratorTool {
            orchestrations,
            agents,
            parent_tools: T::default(),
            fallback_credential,
            provider_runtime_options,
            multimodal_config: M::default(),
            delegate_config: DelegateToolConfig::default(),
            workspace_dir: PathBuf::new(),
            security,
        }
    }

    /// The tool with these parent tools.
    pub fn with_parent_tools(self, handle: T) -> (r: Self)
        ensures
            r == (OrchestratorTool { parent_tools: handle, ..self }),
    {
        OrchestratorTool { parent_tools: handle, ..self }
    }

    /// The tool with these multimodal settings.
    pub fn with_multimodal_config(self, config: M) -> (r: Self)
        ensures
            r == (OrchestratorTool { multimodal_config: config, ..self }),
    {
        OrchestratorTool { multimodal_config: config, ..self }
    }

    /// The tool with these settings for agents that have none of their own.
    pub fn with_delegate_config(self, config: DelegateToolConfig) -> (r: Self)
        ensures
            r == (OrchestratorTool { delegate_config: config, ..self }),
    {
        OrchestratorTool { delegate_config: config, ..self }
    }

    /// The tool with this workspace.
    pub fn with_workspace_dir(self, dir: PathBuf) -> (r: Self)
        ensures
            r == (OrchestratorTool { workspace_dir: dir, ..self }),
    {
        OrchestratorTool { workspace_dir: dir, ..self }
    }

    /// The name under which the tool is called.
    pub fn name(&self) -> (r: &'static str)
        ensures
            r@ == "orchestrate"@,
    {
        "orchestrate"
    }

    /// What the tool is for.
    pub fn description(&self) -> (r: &'static str)
        ensures
            r@
                == "Execute a multi-agent orchestration pipeline. Agents run sequentially, each passing its output to the next. Use this for tasks that require multiple steps (e.g. research → test → create scheduled job)."@,
    {
        "Execute a multi-agent orchestration pipeline. Agents run sequentially, each passing its output to the next. Use this for tasks that require multiple steps (e.g. research → test → create scheduled job)."
    }

    /// The schema of the tool's parameters. It names the orchestrations that can be run.
    pub fn parameters_schema(&self) -> (r: serde_json::Value)
        ensures
            json_tree(r) == schema_tree(self.orchestrations.spec_names()),
    {
        let names = self.orchestrations.names();
        let mut help = "Name of the orchestration to run. Available: ".to_owned();
        help.append(list_names(&names).as_str());
        let mut properties = no_members();
        insert_member(&mut properties, "orchestration".to_owned(), text_parameter(help));
        insert_member(
            &mut properties,
            "prompt".to_owned(),
            text_parameter("The task/prompt for the orchestration pipeline".to_owned()),
        );
        let required: Vec<serde_json::Value> = vec![
            string_value("orchestration".to_owned()),
            string_value("prompt".to_owned()),
        ];
        assert(json_trees(required@) =~= seq![
            JsonTree::Text("orchestration"@),
            JsonTree::Text("prompt"@),
        ]);
        let mut members = no_members();
        insert_member(&mut members, "type".to_owned(), string_value("object".to_owned()));
        insert_member(&mut members, "additionalProperties".to_owned(), bool_value(false));
        insert_member(&mut members, "properties".to_owned(), object_value(properties));
        insert_member(&mut members, "required".to_owned(), array_value(required));
        object_value(members)
    }

    /// The provider that the host is to create for an agent. The agent's own credential
    /// comes first, then the tool's.
    pub fn provider_request<'a>(&'a self, agent_config: &'a DelegateAgentConfig) -> (r:
        ProviderRequest<'a, R>)
        ensures
            r.provider@ == agent_config.provider@,
            *r.options == self.provider_runtime_options,
            match r.credential {
                Some(credential) => Some(credential@) == first_of(
                    opt_text(agent_config.api_key),
                    opt_text(self.fallback_credential),
                ),
                None => agent_config.api_key is None && self.fallback_credential is None,
            },
    {
        let credential = match &agent_config.api_key {
            Some(key) => Some(key.as_str()),
            None => match &self.fallback_credential {
                Some(key) => Some(key.as_str()),
                None => None,
            },
        };
        ProviderRequest {
            provider: agent_config.provider.as_str(),
            credential,
            options: &self.provider_runtime_options,
        }
    }

    /// The provider that the host created for an agent, or a result that says why there
    /// is none.
    pub fn create_provider_for_agent<P>(
        &self,
        agent_config: &DelegateAgentConfig,
        agent_name: &str,
        created: Result<P, String>,
    ) -> (r: Result<P, ToolResult>)
        ensures
            match created {
                Ok(provider) => r == Ok::<P, ToolResult>(provider),
                Err(error) => r matches Err(result) && result@ == refusal_view(
                    provider_failure(agent_config.provider@, agent_name@, error@),
                ),
            },
    {
        match created {
            Ok(provider) => Ok(provider),
            Err(error) => {
                let mut text = "Failed to create provider '".to_owned();
                text.append(agent_config.provider.as_str());
                text.append("' for agent '");
                text.append(agent_name);
                text.append("': ");
                text.append(error.as_str());
                Err(refusal(text))
            },
        }
    }

    /// The tools that an agent gets, of those that the parent has now, each wrapped so that
    /// every invocation is noted. `parent_tools` are the names of the parent's tools.
    pub fn create_tracked_tools(
        &self,
        agent_config: &DelegateAgentConfig,
        parent_tools: &Vec<String>,
    ) -> (r: Vec<TrackingToolWrapper>)
        ensures
            wrappers_view(r@) == tracked_tools(
                texts(parent_tools@),
                texts(agent_config.allowed_tools@),
            ),
            forall|k: int|
                0 <= k < r@.len() ==> (#[trigger] r@[k]).inner < parent_tools@.len()
                    && r@[k].name@ == parent_tools@[r@[k].inner as int]@,
    {
        let picked = select_tools(parent_tools, &agent_config.allowed_tools);
        let mut r: Vec<TrackingToolWrapper> = Vec::new();
        let mut k: usize = 0;
        while k < picked.len()
            invariant
                k <= picked.len(),
                r@.len() == k,
                forall|j: int| 0 <= j < picked@.len() ==> #[trigger] picked@[j] < parent_tools@.len(),
                forall|j: int|
                    0 <= j < k ==> (#[trigger] r@[j]).inner == picked@[j] && r@[j].inner
                        < parent_tools@.len() && r@[j].name@ == parent_tools@[picked@[j] as int]@,
            decreases picked.len() - k,
        {
            let inner: usize = picked[k];
            r.push(TrackingToolWrapper::new(inner, parent_tools[inner].clone()));
            k = k + 1;
        }
        proof {
            let tools = texts(parent_tools@);
            let expected = tracked_tools(tools, texts(agent_config.allowed_tools@));
            assert forall|j: int| 0 <= j < r@.len() implies #[trigger] wrappers_view(r@)[j]
                == expected[j] by {
                assert(indices(picked@)[j] == picked@[j]);
                assert(r@[j].inner == picked@[j]);
                assert(tools[picked@[j] as int] == parent_tools@[picked@[j] as int]@);
            }
            assert(indices(picked@).len() == expected.len());
            assert(wrappers_view(r@) =~= expected);
        }
        r
    }
}

} // verus!
