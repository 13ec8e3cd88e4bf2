//! JSON documents, as `serde_json` holds and writes them.
//!
//! A document is an opaque `serde_json::Value`. What it holds is named by
//! [`json_of`], a tree of plain values; what it looks like on the wire is named
//! by [`json_text`].

use vstd::prelude::*;

verus! {

/// What a JSON document holds.
pub enum Json {
    /// `true` or `false`.
    Bool(bool),
    /// A non-negative integer.
    Number(nat),
    /// A string.
    Text(Seq<char>),
    /// A list.
    Array(Seq<Json>),
    /// An object: at most one value for each key.
    Object(Map<Seq<char>, Json>),
    /// Anything else: `null`, or a number that is negative or a fraction.
    Other(int),
}

/// `serde_json::Value`, one JSON document.
#[verifier::external_type_specification]
#[verifier::external_body]
pub struct ExValue(serde_json::Value);

/// `serde_json::Map`, the members of one JSON object.
#[verifier::external_type_specification]
#[verifier::external_body]
#[verifier::reject_recursive_types(K)]
#[verifier::reject_recursive_types(V)]
pub struct ExMembers<K, V>(serde_json::Map<K, V>);

/// What a `serde_json::Value` holds.
pub uninterp spec fn json_of(value: serde_json::Value) -> Json;

/// What a `serde_json::Map` holds.
pub uninterp spec fn members_of(
    members: serde_json::Map<String, serde_json::Value>,
) -> Map<Seq<char>, Json>;

/// The compact text that `serde_json` writes for a document.
pub uninterp spec fn json_text(json: Json) -> Seq<char>;

/// An object without members.
pub open spec fn nothing() -> Map<Seq<char>, Json> {
    Map::empty()
}

/// `serde_json::Map::new` makes an object without members.
#[verifier::external_body]
pub(crate) fn no_members() -> (r: serde_json::Map<String, serde_json::Value>)
    ensures
        members_of(r) == nothing(),
{
    serde_json::Map::new()
}

/// `serde_json::Map::insert` sets the value of one key and leaves the other
/// members as they were.
#[verifier::external_body]
pub(crate) fn insert(
    members: &mut serde_json::Map<String, serde_json::Value>,
    key: &str,
    value: serde_json::Value,
)
    ensures
        members_of(*final(members)) == members_of(*old(members)).insert(key@, json_of(value)),
{
    members.insert(key.to_string(), value);
}

/// `serde_json::Value::Object` holds the members it is made of.
#[verifier::external_body]
pub(crate) fn object(members: serde_json::Map<String, serde_json::Value>) -> (r: serde_json::Value)
    ensures
        json_of(r) == Json::Object(members_of(members)),
{
    serde_json::Value::Object(members)
}

/// `serde_json::Value::String` holds the text it is made of.
#[verifier::external_body]
pub(crate) fn string(text: &str) -> (r: serde_json::Value)
    ensures
        json_of(r) == Json::Text(text@),
{
    serde_json::Value::String(text.to_string())
}

/// `serde_json::Value::from` on a `u64` holds that number.
#[verifier::external_body]
pub(crate) fn integer(n: u64) -> (r: serde_json::Value)
    ensures
        json_of(r) == Json::Number(n as nat),
{
    serde_json::Value::from(n)
}

/// `serde_json::Value::Bool` holds the flag it is made of.
#[verifier::external_body]
pub(crate) fn boolean(b: bool) -> (r: serde_json::Value)
    ensures
        json_of(r) == Json::Bool(b),
{
    serde_json::Value::Bool(b)
}

/// `serde_json::Value::Array` holds its elements in order.
#[verifier::external_body]
pub(crate) fn array(items: Vec<serde_json::Value>) -> (r: serde_json::Value)
    ensures
        json_of(r) == Json::Array(items@.map_values(|v: serde_json::Value| json_of(v))),
{
    serde_json::Value::Array(items)
}

/// `serde_json::Value::to_string` writes the document on one line, without
/// spaces between tokens.
#[verifier::external_body]
pub(crate) fn render(value: &serde_json::Value) -> (r: String)
    ensures
        r@ == json_text(json_of(*value)),
{
    value.to_string()
}

} // verus!
