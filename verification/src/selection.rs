//! Which of the parent's tools and of the loaded skills an agent gets.

use vstd::prelude::*;

use crate::text::{contains_text, same_text, texts, trim, trimmed};
use crate::tracking::TrackingToolWrapperView;

verus! {

/// The positions of the names that `keep` holds of, in order.
pub open spec fn positions(names: Seq<Seq<char>>, keep: spec_fn(Seq<char>) -> bool) -> Seq<int> {
    Seq::new(names.len(), |i: int| i).filter(|i: int| keep(names[i]))
}

/// The positions that a list of indices stands for.
pub open spec fn indices(list: Seq<usize>) -> Seq<int> {
    list.map_values(|i: usize| i as int)
}

/// The positions below `n` of the names that `keep` holds of.
spec fn positions_below(
    names: Seq<Seq<char>>,
    keep: spec_fn(Seq<char>) -> bool,
    n: int,
) -> Seq<int> {
    Seq::new(n as nat, |i: int| i).filter(|i: int| keep(names[i]))
}

proof fn lemma_positions_below(
    names: Seq<Seq<char>>,
    keep: spec_fn(Seq<char>) -> bool,
    n: int,
)
    requires
        0 <= n,
    ensures
        positions_below(names, keep, 0) == Seq::<int>::empty(),
        positions_below(names, keep, n + 1) == (if keep(names[n]) {
            positions_below(names, keep, n).push(n)
        } else {
            positions_below(names, keep, n)
        }),
{
    reveal(Seq::filter);
    let below = Seq::new((n + 1) as nat, |i: int| i);
    assert(below.drop_last() =~= Seq::new(n as nat, |i: int| i));
    assert(below.last() == n);
}

/// The tools that no agent of an orchestration gets, so that a run cannot start another.
pub open spec fn starts_agents(tool: Seq<char>) -> bool {
    tool == "delegate"@ || tool == "orchestrate"@
}

/// Whether an agent with this list of allowed tools gets the tool: it is on the list, save
/// for white space around the entry, and does not start agents itself.
pub open spec fn may_use_tool(allowed: Seq<Seq<char>>, tool: Seq<char>) -> bool {
    &&& tool.len() > 0
    &&& exists|i: int| 0 <= i < allowed.len() && #[trigger] trimmed(allowed[i]) == tool
    &&& !starts_agents(tool)
}

/// The positions of the tools that an agent gets, among the tools of its parent.
pub open spec fn usable_tools(tools: Seq<Seq<char>>, allowed: Seq<Seq<char>>) -> Seq<int> {
    positions(tools, |tool: Seq<char>| may_use_tool(allowed, tool))
}

/// The tools that an agent gets, each with the name that it has at the parent.
pub open spec fn tracked_tools(
    tools: Seq<Seq<char>>,
    allowed: Seq<Seq<char>>,
) -> Seq<TrackingToolWrapperView> {
    usable_tools(tools, allowed).map_values(
        |i: int| TrackingToolWrapperView { inner: i, name: tools[i] },
    )
}

/// The positions of the skills that an agent gets, among those that were loaded.
pub open spec fn usable_skills(skills: Seq<Seq<char>>, allowed: Seq<Seq<char>>) -> Seq<int> {
    positions(skills, |skill: Seq<char>| allowed.contains(skill))
}

/// The entries of a list of allowed tools, without the white space around them and without
/// those that are blank.
fn tool_names(allowed: &Vec<String>) -> (r: Vec<String>)
    ensures
        forall|tool: Seq<char>| #[trigger]
            texts(r@).contains(tool) <==> tool.len() > 0 && exists|i: int|
                0 <= i < texts(allowed@).len() && #[trigger] trimmed(texts(allowed@)[i]) == tool,
{
    let mut r: Vec<String> = Vec::new();
    let mut i: usize = 0;
    let ghost all = texts(allowed@);
    assert(texts(r@) =~= Seq::empty());
    while i < allowed.len()
        invariant
            i <= allowed.len(),
            all == texts(allowed@),
            forall|tool: Seq<char>| #[trigger]
                texts(r@).contains(tool) <==> tool.len() > 0 && exists|j: int|
                    0 <= j < i && #[trigger] trimmed(all[j]) == tool,
        decreases allowed.len() - i,
    {
        let name = trim(allowed[i].as_str());
        let ghost before = texts(r@);
        assert(name@ == trimmed(all[i as int]));
        if !name.is_empty() {
            r.push(name.to_owned());
            assert(texts(r@) =~= before.push(name@));
        }
        proof {
            assert forall|tool: Seq<char>| #[trigger]
                texts(r@).contains(tool) <==> tool.len() > 0 && exists|j: int|
                    0 <= j < i + 1 && #[trigger] trimmed(all[j]) == tool by {
                if texts(r@).contains(tool) {
                    let k: int = choose|k: int| 0 <= k < texts(r@).len() && texts(r@)[k] == tool;
                    if k < before.len() {
                        assert(before[k] == tool);
                        assert(before.contains(tool));
                    } else {
                        assert(trimmed(all[i as int]) == tool);
                    }
                }
                if tool.len() > 0 && exists|j: int|
                    0 <= j < i + 1 && #[trigger] trimmed(all[j]) == tool {
                    let j: int = choose|j: int|
                        0 <= j < i + 1 && #[trigger] trimmed(all[j]) == tool;
                    if j < i {
                        assert(before.contains(tool));
                        let k: int = choose|k: int| 0 <= k < before.len() && before[k] == tool;
                        assert(texts(r@)[k] == tool);
                    } else {
                        assert(texts(r@)[before.len() as int] == tool);
                    }
                }
            }
        }
        i = i + 1;
    }
    r
}

/// Picks an agent's tools from those of its parent: the positions of those that it gets,
/// in the parent's order.
pub fn select_tools(tools: &Vec<String>, allowed: &Vec<String>) -> (r: Vec<usize>)
    ensures
        indices(r@) == usable_tools(texts(tools@), texts(allowed@)),
        forall|k: int| 0 <= k < r@.len() ==> #[trigger] r@[k] < tools@.len(),
{
    let names = tool_names(allowed);
    let ghost keep = |tool: Seq<char>| may_use_tool(texts(allowed@), tool);
    let mut r: Vec<usize> = Vec::new();
    let mut i: usize = 0;
    proof {
        lemma_positions_below(texts(tools@), keep, 0);
        assert(indices(r@) =~= Seq::empty());
    }
    while i < tools.len()
        invariant
            i <= tools.len(),
            keep == (|tool: Seq<char>| may_use_tool(texts(allowed@), tool)),
            forall|tool: Seq<char>| #[trigger]
                texts(names@).contains(tool) <==> tool.len() > 0 && exists|j: int|
                    0 <= j < texts(allowed@).len() && #[trigger] trimmed(texts(allowed@)[j])
                        == tool,
            indices(r@) == positions_below(texts(tools@), keep, i as int),
            forall|k: int| 0 <= k < r@.len() ==> #[trigger] r@[k] < i,
        decreases tools.len() - i,
    {
        let name = tools[i].as_str();
        assert(name@ == texts(tools@)[i as int]);
        let ghost before = r@;
        if contains_text(&names, name) && !same_text(name, "delegate") && !same_text(
            name,
            "orchestrate",
        ) {
            r.push(i);
            assert(indices(r@) =~= indices(before).push(i as int));
        }
        proof {
            lemma_positions_below(texts(tools@), keep, i as int);
        }
        i = i + 1;
    }
    r
}

/// Picks an agent's skills from those that were loaded: the positions of those that it
/// gets, in the order of loading.
pub fn select_skills(skills: &Vec<String>, allowed: &Vec<String>) -> (r: Vec<usize>)
    ensures
        indices(r@) == usable_skills(texts(skills@), texts(allowed@)),
        forall|k: int| 0 <= k < r@.len() ==> #[trigger] r@[k] < skills@.len(),
{
    let ghost keep = |skill: Seq<char>| texts(allowed@).contains(skill);
    let mut r: Vec<usize> = Vec::new();
    let mut i: usize = 0;
    proof {
        lemma_positions_below(texts(skills@), keep, 0);
        assert(indices(r@) =~= Seq::empty());
    }
    while i < skills.len()
        invariant
            i <= skills.len(),
            keep == (|skill: Seq<char>| texts(allowed@).contains(skill)),
            indices(r@) == positions_below(texts(skills@), keep, i as int),
            forall|k: int| 0 <= k < r@.len() ==> #[trigger] r@[k] < i,
        decreases skills.len() - i,
    {
        let name = skills[i].as_str();
        assert(name@ == texts(skills@)[i as int]);
        let ghost before = r@;
        if contains_text(allowed, name) {
            r.push(i);
            assert(indices(r@) =~= indices(before).push(i as int));
        }
        proof {
            lemma_positions_below(texts(skills@), keep, i as int);
        }
        i = i + 1;
    }
    r
}

/// A position is picked just when the name there is to be kept, and the picked positions
/// ascend.
pub proof fn lemma_positions(names: Seq<Seq<char>>, keep: spec_fn(Seq<char>) -> bool)
    ensures
        forall|i: int| #[trigger]
            positions(names, keep).contains(i) <==> 0 <= i < names.len() && keep(names[i]),
        forall|j: int, k: int|
            0 <= j < k < positions(names, keep).len() ==> #[trigger] positions(names, keep)[j]
                < #[trigger] positions(names, keep)[k],
        forall|j: int|
            0 <= j < positions(names, keep).len() ==> 0 <= #[trigger] positions(names, keep)[j]
                < names.len() && keep(names[positions(names, keep)[j]]),
{
    lemma_positions_up_to(names, keep, names.len() as int);
    assert(positions(names, keep) == positions_below(names, keep, names.len() as int));
}

/// One more name adds its position if it is to be kept, and changes nothing else.
pub proof fn lemma_positions_push(
    names: Seq<Seq<char>>,
    keep: spec_fn(Seq<char>) -> bool,
    added: Seq<char>,
)
    ensures
        positions(names.push(added), keep) == (if keep(added) {
            positions(names, keep).push(names.len() as int)
        } else {
            positions(names, keep)
        }),
{
    let more = names.push(added);
    let n = names.len() as int;
    lemma_positions_below(more, keep, n);
    assert(positions(more, keep) == positions_below(more, keep, n + 1));
    assert(positions(names, keep) == positions_below(names, keep, n));
    lemma_same_names_same_positions(more, names, keep, n);
}

/// The positions below `n` depend only on the names there.
proof fn lemma_same_names_same_positions(
    a: Seq<Seq<char>>,
    b: Seq<Seq<char>>,
    keep: spec_fn(Seq<char>) -> bool,
    n: int,
)
    requires
        0 <= n,
        forall|i: int| 0 <= i < n ==> #[trigger] a[i] == b[i],
    ensures
        positions_below(a, keep, n) == positions_below(b, keep, n),
    decreases n,
{
    lemma_positions_below(a, keep, 0);
    lemma_positions_below(b, keep, 0);
    if n > 0 {
        lemma_same_names_same_positions(a, b, keep, n - 1);
        lemma_positions_below(a, keep, n - 1);
        lemma_positions_below(b, keep, n - 1);
        assert(a[n - 1] == b[n - 1]);
    }
}

proof fn lemma_positions_up_to(
    names: Seq<Seq<char>>,
    keep: spec_fn(Seq<char>) -> bool,
    n: int,
)
    requires
        0 <= n,
    ensures
        forall|i: int| #[trigger]
            positions_below(names, keep, n).contains(i) <==> 0 <= i < n && keep(names[i]),
        forall|j: int, k: int|
            0 <= j < k < positions_below(names, keep, n).len() ==> #[trigger] positions_below(
                names,
                keep,
                n,
            )[j] < #[trigger] positions_below(names, keep, n)[k],
        forall|j: int|
            0 <= j < positions_below(names, keep, n).len() ==> 0 <= #[trigger] positions_below(
                names,
                keep,
                n,
            )[j] < n && keep(names[positions_below(names, keep, n)[j]]),
    decreases n,
{
    lemma_positions_below(names, keep, 0);
    if n > 0 {
        lemma_positions_up_to(names, keep, n - 1);
        lemma_positions_below(names, keep, n - 1);
        let before = positions_below(names, keep, n - 1);
        let after = positions_below(names, keep, n);
        assert forall|i: int| #[trigger] after.contains(i) <==> 0 <= i < n && keep(names[i]) by {
            if after.contains(i) {
                let k: int = choose|k: int| 0 <= k < after.len() && after[k] == i;
                if k < before.len() {
                    assert(before[k] == i);
                    assert(before.contains(i));
                }
            }
            if 0 <= i < n && keep(names[i]) {
                if i < n - 1 {
                    assert(before.contains(i));
                    let k: int = choose|k: int| 0 <= k < before.len() && before[k] == i;
                    assert(after[k] == i);
                } else {
                    assert(after[before.len() as int] == i);
                }
            }
        }
    }
}

} // verus!
