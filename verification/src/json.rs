//! JSON documents, built and written out by `serde_json`.
//!
//! A document is known here by its content, a `Json`; the values that hold
//! one are `serde_json`'s own and stay opaque. Each constructor below says
//! which document its result holds, and `to_text` says that the text written
//! is the one `serde_json` writes for that document.

use vstd::prelude::*;

verus! {

/// The content of a JSON document, as far as this crate writes documents:
/// whole numbers, texts, truth values, arrays, and objects whose members
/// are known by their keys.
pub enum Json {
    Bool(bool),
    Number(nat),
    Text(Seq<char>),
    Array(Seq<Json>),
    Object(Map<Seq<char>, Json>),
}

/// `serde_json`'s value type.
#[verifier::external_type_specification]
#[verifier::external_body]
pub struct ExValue(serde_json::Value);

/// `serde_json`'s object type, a map from keys to values.
#[verifier::external_type_specification]
#[verifier::external_body]
#[verifier::reject_recursive_types(K)]
#[verifier::reject_recursive_types(V)]
pub struct ExMap<K, V>(serde_json::Map<K, V>);

/// The document that a value holds.
pub uninterp spec fn document(value: serde_json::Value) -> Json;

/// The members that an object under construction holds, by key.
pub uninterp spec fn members(object: serde_json::Map<String, serde_json::Value>) -> Map<
    Seq<char>,
    Json,
>;

/// The members of an object that has none.
pub open spec fn no_members() -> Map<Seq<char>, Json> {
    Map::empty()
}

/// The compact text that `serde_json` writes for a document. Built as it is
/// here, with its objects kept sorted, it writes the members of an object in
/// the order of their keys, whatever the order in which they were set.
pub uninterp spec fn json_text(doc: Json) -> Seq<char>;

/// The documents that the values of a sequence hold, in the same order.
pub open spec fn documents(values: Seq<serde_json::Value>) -> Seq<Json> {
    Seq::new(values.len(), |i: int| document(values[i]))
}

/// Makes a number with `serde_json::Value::from`.
///
/// Trusted: the value holds exactly the number given.
#[verifier::external_body]
pub(crate) fn number(n: u64) -> (value: serde_json::Value)
    ensures
        document(value) == Json::Number(n as nat),
{
    serde_json::Value::from(n)
}

/// Makes a text with `serde_json::Value::from`.
///
/// Trusted: the value holds exactly the characters given.
#[verifier::external_body]
pub(crate) fn text(s: &str) -> (value: serde_json::Value)
    ensures
        document(value) == Json::Text(s@),
{
    serde_json::Value::from(s)
}

/// Makes a truth value with `serde_json::Value::from`.
///
/// Trusted: the value holds exactly the truth value given.
#[verifier::external_body]
pub(crate) fn boolean(b: bool) -> (value: serde_json::Value)
    ensures
        document(value) == Json::Bool(b),
{
    serde_json::Value::from(b)
}

/// Makes an array of the given values, `serde_json::Value::Array`.
///
/// Trusted: the array holds the documents of the values, in their order.
#[verifier::external_body]
pub(crate) fn array(items: Vec<serde_json::Value>) -> (value: serde_json::Value)
    ensures
        document(value) == Json::Array(documents(items@)),
{
    serde_json::Value::Array(items)
}

/// Starts an object with `serde_json::Map::new`.
///
/// Trusted: the new object has no members.
#[verifier::external_body]
pub(crate) fn new_object() -> (fresh: serde_json::Map<String, serde_json::Value>)
    ensures
        members(fresh) == no_members(),
{
    serde_json::Map::new()
}

/// Sets a member of an object with `serde_json::Map::insert`.
///
/// Trusted: afterwards the object holds the document of `value` under `key`,
/// in place of what it may have held there, and its other members as before.
#[verifier::external_body]
pub(crate) fn set_member(
    target: &mut serde_json::Map<String, serde_json::Value>,
    key: &str,
    value: serde_json::Value,
)
    ensures
        members(*final(target)) == members(*old(target)).insert(key@, document(value)),
{
    target.insert(key.to_owned(), value);
}

/// Closes an object into a value, `serde_json::Value::Object`.
///
/// Trusted: the value holds an object with the same members.
#[verifier::external_body]
pub(crate) fn close_object(open: serde_json::Map<String, serde_json::Value>) -> (value:
    serde_json::Value)
    ensures
        document(value) == Json::Object(members(open)),
{
    serde_json::Value::Object(open)
}

/// Writes a value out with its `Display`, as `to_string` does.
///
/// Trusted: the text is the compact JSON text of the document that the value
/// holds, and depends on nothing else. This leans on `serde_json` keeping the
/// members of an object sorted by key, which it does unless it is built to
/// preserve the order of insertion.
#[verifier::external_body]
pub(crate) fn to_text(value: &serde_json::Value) -> (written: String)
    ensures
        written@ == json_text(document(*value)),
{
    value.to_string()
}

} // verus!
