//! JSON values: their mathematical model and the calls into `serde_json`
//! that build them and turn them into text.
//!
//! The library decides what a document looks like as a JSON value: which
//! keys it has and in what order. How a value is laid out as indented text is
//! left to `serde_json`; the contracts speak of that text by name.

use vstd::prelude::*;

verus! {

/// A JSON value as a mathematical tree. The members of a record keep their
/// order.
pub enum JsonTree {
    Null,
    Bool(bool),
    /// A number, by the text that stands for it in JSON.
    Number(Seq<char>),
    Text(Seq<char>),
    List(Seq<JsonTree>),
    Record(Seq<(Seq<char>, JsonTree)>),
}

/// Declares `serde_json::Value`, the value type of `serde_json`. Nothing is
/// known of what is inside one but what [`json_model`] says.
#[verifier::external_type_specification]
#[verifier::external_body]
pub struct ExJsonValue(serde_json::Value);

/// Declares `serde_json::Error`, the error of reading and writing JSON text.
/// It is carried through and never looked into.
#[verifier::external_type_specification]
#[verifier::external_body]
pub struct ExJsonError(serde_json::Error);

/// The tree that a `serde_json::Value` holds: each variant of the value is
/// the variant of the same kind of the tree, the members of an object in the
/// order in which the object yields them.
pub uninterp spec fn json_model(v: serde_json::Value) -> JsonTree;

/// The indented text that `serde_json::to_string_pretty` returns for a value
/// that holds `tree`; `None` where it returns an error.
pub uninterp spec fn json_pretty(tree: JsonTree) -> Option<Seq<char>>;

/// The value that `serde_json::from_str` reads from a text, as a tree; `None`
/// where it returns an error.
pub uninterp spec fn json_parsed(text: Seq<char>) -> Option<JsonTree>;

/// The trees of a list of values.
pub open spec fn json_models(items: Seq<serde_json::Value>) -> Seq<JsonTree> {
    items.map_values(|v: serde_json::Value| json_model(v))
}

/// The members that a list of keyed values stands for.
pub open spec fn member_models(members: Seq<(String, serde_json::Value)>) -> Seq<
    (Seq<char>, JsonTree),
> {
    members.map_values(|m: (String, serde_json::Value)| (m.0@, json_model(m.1)))
}

/// The members that a list of borrowed keys and values stands for.
pub open spec fn borrowed_member_models(members: Seq<(&String, &serde_json::Value)>) -> Seq<
    (Seq<char>, JsonTree),
> {
    members.map_values(|m: (&String, &serde_json::Value)| (m.0@, json_model(*m.1)))
}

/// No key occurs twice among the members.
pub open spec fn keys_distinct(members: Seq<(Seq<char>, JsonTree)>) -> bool {
    forall|i: int, j: int|
        0 <= i < j < members.len() ==> (#[trigger] members[i]).0 != (#[trigger] members[j]).0
}

/// Builds `serde_json::Value::String` from a copy of the text: a value that
/// holds the text and nothing else.
#[verifier::external_body]
pub(crate) fn json_text(s: &str) -> (v: serde_json::Value)
    ensures
        json_model(v) == JsonTree::Text(s@),
{
    serde_json::Value::String(s.to_owned())
}

/// Builds `serde_json::Value::Array` from the values: a list that holds them
/// in the order given.
#[verifier::external_body]
pub(crate) fn json_list(items: Vec<serde_json::Value>) -> (v: serde_json::Value)
    ensures
        json_model(v) == JsonTree::List(json_models(items@)),
{
    serde_json::Value::Array(items)
}

/// Builds `serde_json::Value::Object` by collecting the members into a
/// `serde_json::Map`. With the crate's `preserve_order` feature, which this
/// library turns on, the map is an `IndexMap`, whose `extend` documents that
/// new keys are inserted in the order in which they appear. The contract
/// speaks only of members with distinct keys, where every key is new.
#[verifier::external_body]
pub(crate) fn json_record(members: Vec<(String, serde_json::Value)>) -> (v: serde_json::Value)
    ensures
        keys_distinct(member_models(members@)) ==> json_model(v) == JsonTree::Record(
            member_models(members@),
        ),
{
    serde_json::Value::Object(members.into_iter().collect())
}

/// Calls `serde_json::to_string_pretty` on the value. The result depends on
/// the value alone; the contract gives it its name.
#[verifier::external_body]
pub(crate) fn pretty_text(v: &serde_json::Value) -> (r: Result<String, serde_json::Error>)
    ensures
        r matches Ok(text) ==> json_pretty(json_model(*v)) == Some(text@),
        r is Err ==> json_pretty(json_model(*v)) is None,
{
    serde_json::to_string_pretty(v)
}

/// Calls `serde_json::from_str` for a `serde_json::Value`. The result
/// depends on the text alone; the contract gives it its name.
#[verifier::external_body]
pub(crate) fn parse_json(text: &str) -> (r: Result<serde_json::Value, serde_json::Error>)
    ensures
        r matches Ok(v) ==> json_parsed(text@) == Some(json_model(v)),
        r is Err ==> json_parsed(text@) is None,
{
    serde_json::from_str::<serde_json::Value>(text)
}

/// Calls `serde_json::Value::as_str`: the text of a value that is a string,
/// `None` for any other value.
#[verifier::external_body]
pub(crate) fn json_as_text(v: &serde_json::Value) -> (r: Option<&str>)
    ensures
        r matches Some(t) ==> json_model(*v) == JsonTree::Text(t@),
        r is None ==> !(json_model(*v) is Text),
{
    v.as_str()
}

/// Calls `serde_json::Value::as_array`: the items of a value that is an
/// array, `None` for any other value.
#[verifier::external_body]
pub(crate) fn json_as_list(v: &serde_json::Value) -> (r: Option<&Vec<serde_json::Value>>)
    ensures
        r matches Some(l) ==> json_model(*v) == JsonTree::List(json_models(l@)),
        r is None ==> !(json_model(*v) is List),
{
    v.as_array()
}

/// Calls `serde_json::Value::as_object` and walks the map with its `iter`:
/// the members of a value that is an object, in the order in which the map
/// yields them, `None` for any other value.
#[verifier::external_body]
pub(crate) fn json_as_record(v: &serde_json::Value) -> (r: Option<
    Vec<(&String, &serde_json::Value)>,
>)
    ensures
        r matches Some(l) ==> json_model(*v) == JsonTree::Record(borrowed_member_models(l@)),
        r is None ==> !(json_model(*v) is Record),
{
    v.as_object().map(|m| m.iter().collect())
}

} // verus!
