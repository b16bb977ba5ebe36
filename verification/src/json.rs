//! JSON values.
//!
//! A JSON value is a `serde_json::Value`. What it holds is described by a
//! [`JsonTree`]; the functions here make values and look into them.

use vstd::prelude::*;

use crate::text::decimal_text;

verus! {

/// What a JSON value holds. A number is given by its text, an object by its
/// members: their order does not count.
pub enum JsonTree {
    Null,
    Bool(bool),
    Number(Seq<char>),
    Text(Seq<char>),
    Array(Seq<JsonTree>),
    Object(Map<Seq<char>, JsonTree>),
}

/// `serde_json::Value`, any JSON value.
#[verifier::external_type_specification]
#[verifier::external_body]
pub struct ExJsonValue(serde_json::Value);

/// `serde_json::Map`, the members of a JSON object.
#[verifier::external_type_specification]
#[verifier::external_body]
#[verifier::reject_recursive_types(K)]
#[verifier::reject_recursive_types(V)]
pub struct ExJsonMap<K, V>(serde_json::Map<K, V>);

/// What a JSON value holds.
pub uninterp spec fn json_tree(value: serde_json::Value) -> JsonTree;

/// The members that a JSON object under construction holds.
pub uninterp spec fn json_members(members: serde_json::Map<String, serde_json::Value>) -> Map<Seq<char>, JsonTree>;

/// The compact JSON text of a value.
pub uninterp spec fn json_text(tree: JsonTree) -> Seq<char>;

/// `<serde_json::Value as From<String>>::from`: the string as a JSON string.
#[verifier::external_body]
pub(crate) fn string_value(s: String) -> (r: serde_json::Value)
    ensures
        json_tree(r) == JsonTree::Text(s@),
{
    serde_json::Value::from(s)
}

/// `<serde_json::Value as From<bool>>::from`: the JSON literal.
#[verifier::external_body]
pub(crate) fn bool_value(b: bool) -> (r: serde_json::Value)
    ensures
        json_tree(r) == JsonTree::Bool(b),
{
    serde_json::Value::from(b)
}

/// `<serde_json::Value as From<u64>>::from`: the JSON number that is written
/// as `n` in decimal.
#[verifier::external_body]
pub(crate) fn number_value(n: u64) -> (r: serde_json::Value)
    ensures
        json_tree(r) == JsonTree::Number(decimal_text(n as nat)),
{
    serde_json::Value::from(n)
}

/// What the values of a list hold, in order.
pub open spec fn json_trees(items: Seq<serde_json::Value>) -> Seq<JsonTree> {
    items.map_values(|v: serde_json::Value| json_tree(v))
}

/// `<serde_json::Value as From<Vec<serde_json::Value>>>::from`: the JSON array of the
/// values, in their order.
#[verifier::external_body]
pub(crate) fn array_value(items: Vec<serde_json::Value>) -> (r: serde_json::Value)
    ensures
        json_tree(r) == JsonTree::Array(json_trees(items@)),
{
    serde_json::Value::from(items)
}

/// The members of an empty object.
pub open spec fn empty_members() -> Map<Seq<char>, JsonTree> {
    Map::empty()
}

/// `serde_json::Map::new`: no members.
#[verifier::external_body]
pub(crate) fn no_members() -> (r: serde_json::Map<String, serde_json::Value>)
    ensures
        json_members(r) == empty_members(),
{
    serde_json::Map::new()
}

/// `serde_json::Map::insert`: adds the member, in place of one with the same
/// key.
#[verifier::external_body]
pub(crate) fn insert_member(members: &mut serde_json::Map<String, serde_json::Value>, key: String, value: serde_json::Value)
    ensures
        json_members(*final(members)) == json_members(*old(members)).insert(
            key@,
            json_tree(value),
        ),
{
    members.insert(key, value);
}

/// `<serde_json::Value as From<serde_json::Map<String, serde_json::Value>>>::from`: the
/// JSON object with these members.
#[verifier::external_body]
pub(crate) fn object_value(members: serde_json::Map<String, serde_json::Value>) -> (r: serde_json::Value)
    ensures
        json_tree(r) == JsonTree::Object(json_members(members)),
{
    serde_json::Value::from(members)
}

/// `<serde_json::Value as Clone>::clone`: a value that holds the same.
#[verifier::external_body]
pub(crate) fn clone_value(value: &serde_json::Value) -> (r: serde_json::Value)
    ensures
        json_tree(r) == json_tree(*value),
{
    value.clone()
}

/// `<serde_json::Value as ToString>::to_string`, that is the value's `Display`: compact JSON
/// text. It is a function of what the value holds: an object writes its members in the
/// order of their keys, as the crate does without its feature `preserve_order`. Every value
/// is written with at least one character.
#[verifier::external_body]
pub(crate) fn value_text(value: &serde_json::Value) -> (r: String)
    ensures
        r@ == json_text(json_tree(*value)),
        r@.len() > 0,
{
    value.to_string()
}

/// `serde_json::Value::get` with a string: the member of that name, where the
/// value is an object that has one.
#[verifier::external_body]
pub(crate) fn value_member<'v>(value: &'v serde_json::Value, key: &str) -> (r: Option<&'v serde_json::Value>)
    ensures
        match json_tree(*value) {
            JsonTree::Object(members) => match r {
                Some(v) => members.contains_key(key@) && json_tree(*v) == members[key@],
                None => !members.contains_key(key@),
            },
            _ => r is None,
        },
{
    value.get(key)
}

/// `serde_json::Value::as_str`: the text of a JSON string, and `None` for any other value.
#[verifier::external_body]
pub(crate) fn value_str(value: &serde_json::Value) -> (r: Option<&str>)
    ensures
        match json_tree(*value) {
            JsonTree::Text(text) => r matches Some(s) && s@ == text,
            _ => r is None,
        },
{
    value.as_str()
}

/// The text under `key`, where `tree` is an object that has a string there.
pub open spec fn text_at(tree: JsonTree, key: Seq<char>) -> Option<Seq<char>> {
    match tree {
        JsonTree::Object(members) => if members.contains_key(key) {
            match members[key] {
                JsonTree::Text(text) => Some(text),
                _ => None,
            }
        } else {
            None
        },
        _ => None,
    }
}

/// The text of the member `key`, where `value` is an object that has a string there.
pub fn member_text<'v>(value: &'v serde_json::Value, key: &str) -> (r: Option<&'v str>)
    ensures
        match r {
            Some(s) => text_at(json_tree(*value), key@) == Some(s@),
            None => text_at(json_tree(*value), key@) is None,
        },
{
    match value_member(value, key) {
        Some(member) => value_str(member),
        None => None,
    }
}

} // verus!
