//! The record of the tool calls that agents make, and the report that carries it.

use vstd::prelude::*;

use crate::config::{ToolResult, ToolResultView};
use crate::json::{
    array_value, bool_value, clone_value, empty_members, insert_member, json_text, json_tree,
    json_trees, no_members, object_value, string_value, value_text, JsonTree,
};

verus! {

/// The key of the report under which the tool calls stand, so that the main agent's turn
/// can find them and send them on.
pub const ORCHESTRATED_CALLS_KEY: &'static str = "__orchestrated_tool_calls";

/// A tool call that an agent made, and what came of it.
#[derive(Debug)]
pub struct TrackedToolCall {
    pub name: String,
    pub args: serde_json::Value,
    pub result: String,
    pub success: bool,
}

/// The contents of a [`TrackedToolCall`].
pub struct TrackedToolCallView {
    pub name: Seq<char>,
    pub args: JsonTree,
    pub result: Seq<char>,
    pub success: bool,
}

impl View for TrackedToolCall {
    type V = TrackedToolCallView;

    open spec fn view(&self) -> TrackedToolCallView {
        TrackedToolCallView {
            name: self.name@,
            args: json_tree(self.args),
            result: self.result@,
            success: self.success,
        }
    }
}

/// The contents of a record of calls, in order.
pub open spec fn calls_view(calls: Seq<TrackedToolCall>) -> Seq<TrackedToolCallView> {
    calls.map_values(|c: TrackedToolCall| c@)
}

/// An invocation of a tool that is over: what it was given, and what came of it. An
/// invocation that could not be carried out has an error, given by its text.
pub struct Invocation {
    pub name: Seq<char>,
    pub args: JsonTree,
    pub outcome: Result<ToolResultView, Seq<char>>,
}

/// The entry that an invocation has in the record. One that could not be carried out has
/// the error's text for its result, and is no success.
pub open spec fn entry_of(invocation: Invocation) -> TrackedToolCallView {
    TrackedToolCallView {
        name: invocation.name,
        args: invocation.args,
        result: match invocation.outcome {
            Ok(result) => result.output,
            Err(error) => error,
        },
        success: invocation.outcome matches Ok(result) && result.success,
    }
}

/// An invocation, by the outcome of the tool. `error_text` is the text of the error, where
/// there is one.
pub open spec fn invocation_of<E>(
    tool_name: Seq<char>,
    args: JsonTree,
    outcome: Result<ToolResult, E>,
    error_text: Seq<char>,
) -> Invocation {
    Invocation {
        name: tool_name,
        args,
        outcome: match outcome {
            Ok(result) => Ok(result@),
            Err(_) => Err(error_text),
        },
    }
}

/// Takes note of an invocation of a tool once it is over, and hands its outcome on.
///
/// Every invocation goes to the end of the record, be its result a success or not, and
/// also where it could not be carried out. `error_text` is the text of the error, where
/// there is one.
pub fn track_call<E>(
    calls: &mut Vec<TrackedToolCall>,
    tool_name: &str,
    args: serde_json::Value,
    outcome: Result<ToolResult, E>,
    error_text: &str,
) -> (r: Result<ToolResult, E>)
    ensures
        r == outcome,
        calls_view(final(calls)@) == calls_view(old(calls)@).push(
            entry_of(invocation_of(tool_name@, json_tree(args), outcome, error_text@)),
        ),
        final(calls)@.len() == old(calls)@.len() + 1,
        final(calls)@.drop_last() == old(calls)@,
{
    let call = match &outcome {
        Ok(result) => TrackedToolCall {
            name: tool_name.to_owned(),
            args,
            result: result.output.clone(),
            success: result.success,
        },
        Err(_) => TrackedToolCall {
            name: tool_name.to_owned(),
            args,
            result: error_text.to_owned(),
            success: false,
        },
    };
    calls.push(call);
    assert(calls_view(calls@) =~= calls_view(old(calls)@).push(call@));
    assert(calls@.drop_last() =~= old(calls)@);
    outcome
}

/// A tool of an agent, every invocation of which is noted: where the tool stands among
/// those of the parent, and its name there.
#[derive(Debug, PartialEq, Eq)]
pub struct TrackingToolWrapper {
    pub inner: usize,
    pub name: String,
}

/// The contents of a [`TrackingToolWrapper`].
pub struct TrackingToolWrapperView {
    pub inner: int,
    pub name: Seq<char>,
}

impl View for TrackingToolWrapper {
    type V = TrackingToolWrapperView;

    open spec fn view(&self) -> TrackingToolWrapperView {
        TrackingToolWrapperView { inner: self.inner as int, name: self.name@ }
    }
}

/// The contents of a list of tools.
pub open spec fn wrappers_view(
    wrappers: Seq<TrackingToolWrapper>,
) -> Seq<TrackingToolWrapperView> {
    wrappers.map_values(|w: TrackingToolWrapper| w@)
}

impl TrackingToolWrapper {
    /// Wraps the parent's tool at this position.
    pub fn new(inner: usize, name: String) -> (r: Self)
        ensures
            r.inner == inner,
            r.name == name,
    {
        TrackingToolWrapper { inner, name }
    }

    /// The name of the tool, which is that of the parent's.
    pub fn name(&self) -> (r: &str)
        ensures
            r@ == self@.name,
    {
        self.name.as_str()
    }

    /// Takes note of an invocation of the tool once it is over, and hands its outcome on.
    /// `calls` is the record that the tools of a run share.
    pub fn execute<E>(
        &self,
        calls: &mut Vec<TrackedToolCall>,
        args: serde_json::Value,
        outcome: Result<ToolResult, E>,
        error_text: &str,
    ) -> (r: Result<ToolResult, E>)
        ensures
            r == outcome,
            calls_view(final(calls)@) == calls_view(old(calls)@).push(
                entry_of(invocation_of(self@.name, json_tree(args), outcome, error_text@)),
            ),
            final(calls)@.len() == old(calls)@.len() + 1,
            final(calls)@.drop_last() == old(calls)@,
    {
        track_call(calls, self.name.as_str(), args, outcome, error_text)
    }
}

/// A tool call as it stands in a report.
pub open spec fn call_tree(call: TrackedToolCallView) -> JsonTree {
    JsonTree::Object(
        empty_members().insert("name"@, JsonTree::Text(call.name)).insert("args"@, call.args).insert(
            "result"@,
            JsonTree::Text(call.result),
        ).insert("success"@, JsonTree::Bool(call.success)),
    )
}

/// The record of calls as it stands in a report.
pub open spec fn calls_tree(calls: Seq<TrackedToolCallView>) -> JsonTree {
    JsonTree::Array(calls.map_values(|c: TrackedToolCallView| call_tree(c)))
}

/// The report on an orchestration: a response, and the tool calls made on the way.
pub open spec fn report_tree(
    response: Seq<char>,
    calls: Seq<TrackedToolCallView>,
) -> JsonTree {
    JsonTree::Object(
        empty_members().insert("response"@, JsonTree::Text(response)).insert(
            ORCHESTRATED_CALLS_KEY@,
            calls_tree(calls),
        ),
    )
}

/// The text of a report.
pub open spec fn report_text(response: Seq<char>, calls: Seq<TrackedToolCallView>) -> Seq<char> {
    json_text(report_tree(response, calls))
}

/// A tool call as a JSON object.
pub fn call_value(call: &TrackedToolCall) -> (r: serde_json::Value)
    ensures
        json_tree(r) == call_tree(call@),
{
    let mut members = no_members();
    insert_member(&mut members, "name".to_owned(), string_value(call.name.clone()));
    insert_member(&mut members, "args".to_owned(), clone_value(&call.args));
    insert_member(&mut members, "result".to_owned(), string_value(call.result.clone()));
    insert_member(&mut members, "success".to_owned(), bool_value(call.success));
    object_value(members)
}

/// A record of calls as a JSON array.
pub fn calls_value(calls: &Vec<TrackedToolCall>) -> (r: serde_json::Value)
    ensures
        json_tree(r) == calls_tree(calls_view(calls@)),
{
    let mut items: Vec<serde_json::Value> = Vec::new();
    let mut i: usize = 0;
    while i < calls.len()
        invariant
            i <= calls.len(),
            items@.len() == i,
            forall|j: int| 0 <= j < i ==> json_tree(#[trigger] items@[j]) == call_tree(calls@[j]@),
        decreases calls.len() - i,
    {
        items.push(call_value(&calls[i]));
        i = i + 1;
    }
    assert(json_trees(items@) =~= calls_view(calls@).map_values(
        |c: TrackedToolCallView| call_tree(c),
    ));
    array_value(items)
}

/// The report as a JSON object.
pub fn report_value(response: String, calls: &Vec<TrackedToolCall>) -> (r: serde_json::Value)
    ensures
        json_tree(r) == report_tree(response@, calls_view(calls@)),
{
    let mut members = no_members();
    insert_member(&mut members, "response".to_owned(), string_value(response));
    insert_member(&mut members, ORCHESTRATED_CALLS_KEY.to_owned(), calls_value(calls));
    object_value(members)
}

/// The report as text, which is never empty.
pub fn report(response: String, calls: &Vec<TrackedToolCall>) -> (r: String)
    ensures
        r@ == report_text(response@, calls_view(calls@)),
        r@.len() > 0,
{
    let value = report_value(response, calls);
    value_text(&value)
}

} // verus!
