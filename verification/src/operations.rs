//! What each operation does, by what it is given and what it gives back.
//!
//! A law here holds of every call: what was given and what came back are its parameters.

use vstd::prelude::*;

use crate::config::{refusal, ToolResult};
use crate::json::{json_text, json_tree, member_text, JsonTree};
use crate::laws::{law_report_holds_every_call, law_reported_call_is_complete};
use crate::selection::{
    indices, lemma_positions, may_use_tool, select_skills, select_tools, usable_skills, usable_tools,
};
use crate::table::NameTable;
use crate::text::{decimal, decimal_text, join, joined, texts, trimmed};
use crate::tracking::{
    call_value, calls_value, calls_view, report, report_text, report_tree, report_value,
    track_call, TrackedToolCall, TrackingToolWrapper,
};

verus! {

broadcast use vstd::string::group_string_axioms;

// ---- Text ----

/// The number that a text of decimal digits stands for.
pub open spec fn number_of(digits: Seq<char>) -> int
    decreases digits.len(),
{
    if digits.len() == 0 {
        0
    } else {
        10 * number_of(digits.drop_last()) + (digits.last() as int - '0' as int)
    }
}

proof fn lemma_decimal_text(n: nat)
    ensures
        decimal_text(n).len() > 0,
        forall|i: int| 0 <= i < decimal_text(n).len() ==> '0' <= #[trigger] decimal_text(n)[i] <= '9',
        n > 0 ==> decimal_text(n)[0] != '0',
        number_of(decimal_text(n)) == n,
    decreases n,
{
    let text = decimal_text(n);
    if n < 10 {
        assert(text.drop_last() =~= Seq::empty());
        assert(number_of(Seq::<char>::empty()) == 0);
    } else {
        lemma_decimal_text(n / 10);
        assert(text.drop_last() =~= decimal_text(n / 10));
    }
}

/// A number is written with decimal digits alone, without a leading zero save for the digit
/// that is zero itself, and what is written reads as the number.
pub proof fn law_decimal_reads_back(n: u64, r: String)
    requires
        call_ensures(decimal, (n,), r),
    ensures
        r@.len() > 0,
        forall|i: int| 0 <= i < r@.len() ==> '0' <= #[trigger] r@[i] <= '9',
        n > 0 ==> r@[0] != '0',
        n == 0 ==> r@ == seq!['0'],
        number_of(r@) == n,
{
    lemma_decimal_text(n as nat);
}

proof fn lemma_joined_parts(front: Seq<Seq<char>>, back: Seq<Seq<char>>, separator: Seq<char>)
    requires
        front.len() > 0,
        back.len() > 0,
    ensures
        joined(front + back, separator) == joined(front, separator) + separator + joined(
            back,
            separator,
        ),
    decreases back.len(),
{
    let all = front + back;
    if back.len() == 1 {
        assert(all.drop_last() =~= front);
    } else {
        assert(all.drop_last() =~= front + back.drop_last());
        lemma_joined_parts(front, back.drop_last(), separator);
        assert(all.last() == back.last());
        assert(joined(all, separator) =~= joined(front, separator) + separator + joined(
            back,
            separator,
        ));
    }
}

/// No strings join to nothing, and one to itself.
pub proof fn law_join_of_few(parts: Vec<String>, separator: &str, r: String)
    requires
        call_ensures(join, (&parts, separator), r),
    ensures
        parts@.len() == 0 ==> r@.len() == 0,
        parts@.len() == 1 ==> r@ == parts@[0]@,
{
    if parts@.len() == 1 {
        assert(texts(parts@)[0] == parts@[0]@);
    }
}

/// Wherever a list is divided in two, the separator stands between what the two halves join
/// to.
pub proof fn law_join_in_parts(
    front: Vec<String>,
    back: Vec<String>,
    all: Vec<String>,
    separator: &str,
    joined_front: String,
    joined_back: String,
    joined_all: String,
)
    requires
        front@.len() > 0,
        back@.len() > 0,
        all@ == front@ + back@,
        call_ensures(join, (&front, separator), joined_front),
        call_ensures(join, (&back, separator), joined_back),
        call_ensures(join, (&all, separator), joined_all),
    ensures
        joined_all@ == joined_front@ + separator@ + joined_back@,
{
    assert(texts(all@) =~= texts(front@) + texts(back@));
    lemma_joined_parts(texts(front@), texts(back@), separator@);
}

// ---- JSON ----

/// A member's text is given just when the value is an object with a string under the key.
pub proof fn law_member_text(value: &serde_json::Value, key: &str, r: Option<&str>)
    requires
        call_ensures(member_text, (value, key), r),
    ensures
        r matches Some(text) ==> (json_tree(*value) matches JsonTree::Object(members)
            && members.contains_key(key@) && members[key@] == JsonTree::Text(text@)),
        (json_tree(*value) matches JsonTree::Object(members) && members.contains_key(key@)
            && members[key@] is Text) ==> r is Some,
{
}

// ---- The table ----

/// After an entry is set, its name leads to it, and every other name to what it led to
/// before.
pub proof fn law_get_after_insert<V>(
    table: &mut NameTable<V>,
    name: String,
    value: V,
    other: &str,
    before: Option<&V>,
    after: Option<&V>,
)
    requires
        call_ensures(NameTable::<V>::insert, (table, name, value), ()),
        call_ensures(NameTable::<V>::get, (&*table, other), before),
        call_ensures(NameTable::<V>::get, (&*final(table), other), after),
    ensures
        other@ == name@ ==> after == Some(&value),
        other@ != name@ ==> after == before,
{
}

/// A new name comes behind those that are there, and one that is there keeps its place.
pub proof fn law_names_after_insert<V>(
    table: &mut NameTable<V>,
    name: String,
    value: V,
    before: Vec<String>,
    after: Vec<String>,
)
    requires
        call_ensures(NameTable::<V>::insert, (table, name, value), ()),
        call_ensures(NameTable::<V>::names, (&*table,), before),
        call_ensures(NameTable::<V>::names, (&*final(table),), after),
    ensures
        forall|i: int|
            0 <= i < before@.len() ==> i < after@.len() && #[trigger] after@[i]@ == before@[i]@,
        (exists|i: int| 0 <= i < before@.len() && #[trigger] before@[i]@ == name@) ==> after@.len()
            == before@.len(),
        !(exists|i: int| 0 <= i < before@.len() && #[trigger] before@[i]@ == name@) ==> {
            &&& after@.len() == before@.len() + 1
            &&& after@[before@.len() as int]@ == name@
        },
{
    let known = texts(before@);
    assert(known.len() == before@.len() && texts(after@).len() == after@.len());
    assert forall|i: int| 0 <= i < before@.len() implies i < after@.len() && #[trigger] after@[i]@
        == before@[i]@ by {
        assert(known[i] == before@[i]@);
        assert(texts(after@)[i] == known[i]);
    }
    if exists|i: int| 0 <= i < before@.len() && #[trigger] before@[i]@ == name@ {
        let i: int = choose|i: int| 0 <= i < before@.len() && #[trigger] before@[i]@ == name@;
        assert(known[i] == name@);
        assert(known.contains(name@));
    } else {
        if known.contains(name@) {
            let i: int = choose|i: int| 0 <= i < known.len() && known[i] == name@;
            assert(before@[i]@ == name@);
        }
        assert(texts(after@)[before@.len() as int] == name@);
    }
}

// ---- The record ----

/// Every invocation of a tool, whatever came of it, puts one entry behind those that are
/// there, and its outcome is handed on. The entry has the tool's name, its arguments, and
/// the output with whether it is a success, or the error's text and that it is none.
pub proof fn law_track_call<E>(
    calls: &mut Vec<TrackedToolCall>,
    tool_name: &str,
    args: serde_json::Value,
    outcome: Result<ToolResult, E>,
    error_text: &str,
    r: Result<ToolResult, E>,
)
    requires
        call_ensures(track_call::<E>, (calls, tool_name, args, outcome, error_text), r),
    ensures
        r == outcome,
        final(calls)@.len() == old(calls)@.len() + 1,
        forall|i: int| 0 <= i < old(calls)@.len() ==> #[trigger] final(calls)@[i] == old(calls)@[i],
        ({
            let entry = final(calls)@[old(calls)@.len() as int];
            &&& entry.name@ == tool_name@
            &&& json_tree(entry.args) == json_tree(args)
            &&& outcome matches Ok(result) ==> entry.result@ == result.output@ && entry.success
                == result.success
            &&& outcome is Err ==> entry.result@ == error_text@ && !entry.success
        }),
{
    let n = calls@.len() as int;
    let after = *final(calls);
    assert(calls_view(after@)[n] == after@[n]@);
    assert forall|i: int| 0 <= i < n implies #[trigger] after@[i] == calls@[i] by {
        assert(after@.drop_last()[i] == after@[i]);
    }
}

/// A wrapped tool has the name that it was wrapped with, and an invocation of it is noted
/// under that name.
pub proof fn law_wrapped_tool<E>(
    inner: usize,
    name: String,
    wrapper: TrackingToolWrapper,
    shown: &str,
    calls: &mut Vec<TrackedToolCall>,
    args: serde_json::Value,
    outcome: Result<ToolResult, E>,
    error_text: &str,
    r: Result<ToolResult, E>,
)
    requires
        call_ensures(TrackingToolWrapper::new, (inner, name), wrapper),
        call_ensures(TrackingToolWrapper::name, (&wrapper,), shown),
        call_ensures(
            TrackingToolWrapper::execute::<E>,
            (&wrapper, calls, args, outcome, error_text),
            r,
        ),
    ensures
        wrapper.inner == inner,
        shown@ == name@,
        r == outcome,
        final(calls)@.len() == old(calls)@.len() + 1,
        forall|i: int| 0 <= i < old(calls)@.len() ==> #[trigger] final(calls)@[i] == old(calls)@[i],
        ({
            let entry = final(calls)@[old(calls)@.len() as int];
            &&& entry.name@ == name@
            &&& json_tree(entry.args) == json_tree(args)
            &&& outcome matches Ok(result) ==> entry.result@ == result.output@ && entry.success
                == result.success
            &&& outcome is Err ==> entry.result@ == error_text@ && !entry.success
        }),
{
    let n = calls@.len() as int;
    let after = *final(calls);
    assert(calls_view(after@)[n] == after@[n]@);
    assert forall|i: int| 0 <= i < n implies #[trigger] after@[i] == calls@[i] by {
        assert(after@.drop_last()[i] == after@[i]);
    }
}

// ---- The report ----

/// A JSON object that has a call's name, arguments, result and success, and nothing else.
pub open spec fn shows_call(item: JsonTree, call: TrackedToolCall) -> bool {
    item matches JsonTree::Object(members) && {
        &&& members.dom() == set!["name"@, "args"@, "result"@, "success"@]
        &&& members["name"@] == JsonTree::Text(call.name@)
        &&& members["args"@] == json_tree(call.args)
        &&& members["result"@] == JsonTree::Text(call.result@)
        &&& members["success"@] == JsonTree::Bool(call.success)
    }
}

/// A JSON object that has a response and an array of these calls, each of them and in their
/// order, and nothing else.
pub open spec fn shows_run(
    tree: JsonTree,
    response: Seq<char>,
    calls: Seq<TrackedToolCall>,
) -> bool {
    tree matches JsonTree::Object(members) && {
        &&& members.dom() == set!["response"@, "__orchestrated_tool_calls"@]
        &&& members["response"@] == JsonTree::Text(response)
        &&& members["__orchestrated_tool_calls"@] matches JsonTree::Array(items) && {
            &&& items.len() == calls.len()
            &&& forall|i: int| 0 <= i < calls.len() ==> shows_call(#[trigger] items[i], calls[i])
        }
    }
}

/// The text of a JSON object that has a response and all of these calls, and nothing else.
pub open spec fn reports(
    text: Seq<char>,
    response: Seq<char>,
    calls: Seq<TrackedToolCall>,
) -> bool {
    exists|tree: JsonTree| text == #[trigger] json_text(tree) && shows_run(tree, response, calls)
}

proof fn lemma_report_tree(response: Seq<char>, calls: Seq<TrackedToolCall>)
    ensures
        shows_run(report_tree(response, calls_view(calls)), response, calls),
{
    law_report_holds_every_call(response, calls_view(calls));
    if let JsonTree::Object(members) = report_tree(response, calls_view(calls)) {
        if let JsonTree::Array(items) = members["__orchestrated_tool_calls"@] {
            assert forall|i: int| 0 <= i < calls.len() implies shows_call(
                #[trigger] items[i],
                calls[i],
            ) by {
                assert(calls_view(calls)[i] == calls[i]@);
                law_reported_call_is_complete(calls[i]@);
            }
        }
    }
}

pub(crate) proof fn lemma_report_text(response: Seq<char>, calls: Seq<TrackedToolCall>)
    ensures
        reports(report_text(response, calls_view(calls)), response, calls),
{
    lemma_report_tree(response, calls);
    assert(report_text(response, calls_view(calls)) == json_text(
        report_tree(response, calls_view(calls)),
    ));
}

/// A report is the JSON text of an object with the response and, for any number of calls,
/// each of them in order.
pub proof fn law_report(response: String, calls: &Vec<TrackedToolCall>, r: String)
    requires
        call_ensures(report, (response, calls), r),
    ensures
        r@.len() > 0,
        exists|tree: JsonTree|
            r@ == #[trigger] json_text(tree) && (tree matches JsonTree::Object(members) && {
                &&& members.dom() == set!["response"@, "__orchestrated_tool_calls"@]
                &&& members["response"@] == JsonTree::Text(response@)
                &&& members["__orchestrated_tool_calls"@] matches JsonTree::Array(items) && {
                    &&& items.len() == calls@.len()
                    &&& forall|i: int|
                        0 <= i < calls@.len() ==> shows_call(#[trigger] items[i], calls@[i])
                }
            }),
        reports(r@, response@, calls@),
{
    lemma_report_text(response@, calls@);
}

/// The value of a report, and of each call in it, has what the text shows.
pub proof fn law_report_values(
    response: String,
    calls: &Vec<TrackedToolCall>,
    call: &TrackedToolCall,
    whole: serde_json::Value,
    list: serde_json::Value,
    one: serde_json::Value,
)
    requires
        call_ensures(report_value, (response, calls), whole),
        call_ensures(calls_value, (calls,), list),
        call_ensures(call_value, (call,), one),
    ensures
        shows_run(json_tree(whole), response@, calls@),
        shows_call(json_tree(one), *call),
        json_tree(list) matches JsonTree::Array(items) && items.len() == calls@.len() && forall|
            i: int,
        |
            0 <= i < calls@.len() ==> shows_call(#[trigger] items[i], calls@[i]),
{
    lemma_report_tree(response@, calls@);
    law_reported_call_is_complete(call@);
    assert forall|i: int| 0 <= i < calls@.len() implies shows_call(
        #[trigger] json_tree(list)->Array_0[i],
        calls@[i],
    ) by {
        assert(calls_view(calls@)[i] == calls@[i]@);
        law_reported_call_is_complete(calls@[i]@);
    }
}

// ---- Refusals ----

/// A refusal is no success, has no output, and gives its reason.
pub proof fn law_refusal(error: String, r: ToolResult)
    requires
        call_ensures(refusal, (error,), r),
    ensures
        !r.success,
        r.output@.len() == 0,
        r.error matches Some(reason) && reason@ == error@,
{
}

// ---- The tools and skills of an agent ----

/// Picked are the parent's tools that are on the list, save for white space around the
/// entry, all of them, in the parent's order; but none without a name, and neither of the
/// two that start agents.
pub proof fn law_select_tools(tools: &Vec<String>, allowed: &Vec<String>, r: Vec<usize>)
    requires
        call_ensures(select_tools, (tools, allowed), r),
    ensures
        forall|i: int, j: int|
            0 <= i < tools@.len() && 0 <= j < allowed@.len() && trimmed(#[trigger] allowed@[j]@)
                == (#[trigger] tools@[i])@ && tools@[i]@.len() > 0 && tools@[i]@ != "delegate"@
                && tools@[i]@ != "orchestrate"@ ==> exists|k: int|
                0 <= k < r@.len() && #[trigger] r@[k] == i,
        forall|k: int|
            0 <= k < r@.len() ==> {
                let i = #[trigger] r@[k] as int;
                &&& i < tools@.len()
                &&& tools@[i]@.len() > 0
                &&& tools@[i]@ != "delegate"@
                &&& tools@[i]@ != "orchestrate"@
                &&& exists|j: int|
                    0 <= j < allowed@.len() && trimmed(#[trigger] allowed@[j]@) == tools@[i]@
            },
        forall|j: int, k: int|
            0 <= j < k < r@.len() ==> #[trigger] r@[j] < #[trigger] r@[k],
{
    let names = texts(tools@);
    let list = texts(allowed@);
    let picked = usable_tools(names, list);
    lemma_positions(names, |tool: Seq<char>| may_use_tool(list, tool));
    assert forall|i: int, j: int|
        0 <= i < tools@.len() && 0 <= j < allowed@.len() && trimmed(#[trigger] allowed@[j]@)
            == (#[trigger] tools@[i])@ && tools@[i]@.len() > 0 && tools@[i]@ != "delegate"@
            && tools@[i]@ != "orchestrate"@ implies exists|k: int|
        0 <= k < r@.len() && #[trigger] r@[k] == i by {
        assert(names[i] == tools@[i]@);
        assert(trimmed(list[j]) == names[i]);
        assert(may_use_tool(list, names[i]));
        assert(picked.contains(i));
        let k: int = choose|k: int| 0 <= k < picked.len() && picked[k] == i;
        assert(indices(r@)[k] == r@[k]);
    }
    assert forall|k: int| 0 <= k < r@.len() implies ({
        let i = #[trigger] r@[k] as int;
        &&& i < tools@.len()
        &&& tools@[i]@.len() > 0
        &&& tools@[i]@ != "delegate"@
        &&& tools@[i]@ != "orchestrate"@
        &&& exists|j: int|
            0 <= j < allowed@.len() && trimmed(#[trigger] allowed@[j]@) == tools@[i]@
    }) by {
        let i = r@[k] as int;
        assert(indices(r@)[k] == i);
        assert(picked[k] == i);
        assert(names[i] == tools@[i]@);
        assert(may_use_tool(list, names[i]));
        let j: int = choose|j: int| 0 <= j < list.len() && #[trigger] trimmed(list[j]) == names[i];
        assert(list[j] == allowed@[j]@);
    }
    assert forall|j: int, k: int| 0 <= j < k < r@.len() implies #[trigger] r@[j]
        < #[trigger] r@[k] by {
        assert(indices(r@)[j] == r@[j]);
        assert(indices(r@)[k] == r@[k]);
    }
}

/// Picked are the loaded skills that are on the list, all of them, in the order of loading.
pub proof fn law_select_skills(skills: &Vec<String>, allowed: &Vec<String>, r: Vec<usize>)
    requires
        call_ensures(select_skills, (skills, allowed), r),
    ensures
        forall|i: int, j: int|
            0 <= i < skills@.len() && 0 <= j < allowed@.len() && (#[trigger] allowed@[j])@ == (
            #[trigger] skills@[i])@ ==> exists|k: int| 0 <= k < r@.len() && #[trigger] r@[k] == i,
        forall|k: int|
            0 <= k < r@.len() ==> {
                let i = #[trigger] r@[k] as int;
                &&& i < skills@.len()
                &&& exists|j: int|
                    0 <= j < allowed@.len() && (#[trigger] allowed@[j])@ == skills@[i]@
            },
        forall|j: int, k: int|
            0 <= j < k < r@.len() ==> #[trigger] r@[j] < #[trigger] r@[k],
{
    lemma_skills(skills@, allowed@, r@);
}

pub(crate) proof fn lemma_skills(skills: Seq<String>, allowed: Seq<String>, r: Seq<usize>)
    requires
        indices(r) == usable_skills(texts(skills), texts(allowed)),
    ensures
        forall|i: int, j: int|
            0 <= i < skills.len() && 0 <= j < allowed.len() && (#[trigger] allowed[j])@ == (
            #[trigger] skills[i])@ ==> exists|k: int| 0 <= k < r.len() && #[trigger] r[k] == i,
        forall|k: int|
            0 <= k < r.len() ==> {
                let i = #[trigger] r[k] as int;
                &&& i < skills.len()
                &&& exists|j: int| 0 <= j < allowed.len() && (#[trigger] allowed[j])@ == skills[i]@
            },
        forall|j: int, k: int| 0 <= j < k < r.len() ==> #[trigger] r[j] < #[trigger] r[k],
{
    let names = texts(skills);
    let list = texts(allowed);
    let picked = usable_skills(names, list);
    lemma_positions(names, |skill: Seq<char>| list.contains(skill));
    assert forall|i: int, j: int|
        0 <= i < skills.len() && 0 <= j < allowed.len() && (#[trigger] allowed[j])@ == (
        #[trigger] skills[i])@ implies exists|k: int|
        0 <= k < r.len() && #[trigger] r[k] == i by {
        assert(names[i] == skills[i]@);
        assert(list[j] == names[i]);
        assert(list.contains(names[i]));
        assert(picked.contains(i));
        let k: int = choose|k: int| 0 <= k < picked.len() && picked[k] == i;
        assert(indices(r)[k] == r[k]);
    }
    assert forall|k: int| 0 <= k < r.len() implies ({
        let i = #[trigger] r[k] as int;
        &&& i < skills.len()
        &&& exists|j: int| 0 <= j < allowed.len() && (#[trigger] allowed[j])@ == skills[i]@
    }) by {
        let i = r[k] as int;
        assert(indices(r)[k] == i);
        assert(picked[k] == i);
        assert(names[i] == skills[i]@);
        let j: int = choose|j: int| 0 <= j < list.len() && list[j] == names[i];
        assert(list[j] == allowed[j]@);
    }
    assert forall|j: int, k: int| 0 <= j < k < r.len() implies #[trigger] r[j] < #[trigger] r[k] by {
        assert(indices(r)[j] == r[j]);
        assert(indices(r)[k] == r[k]);
    }
}

} // verus!
