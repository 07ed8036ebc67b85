use vstd::prelude::*;

use crate::text::string_views;

verus! {

#[verifier::external_type_specification]
#[verifier::external_body]
pub struct ExJsonValue(serde_json::Value);

#[verifier::external_type_specification]
#[verifier::external_body]
#[verifier::reject_recursive_types(K)]
#[verifier::reject_recursive_types(V)]
pub struct ExJsonMap<K, V>(serde_json::Map<K, V>);

/// A JSON object: string keys mapped to JSON values.
pub type JsonObject = serde_json::Map<String, serde_json::Value>;

/// The entries of a JSON object map, by key.
pub uninterp spec fn json_entries(m: JsonObject) -> Map<
    Seq<char>,
    serde_json::Value,
>;

/// The JSON text that `serde_json::to_string` produces for an object with
/// these entries.
pub uninterp spec fn json_text_of(entries: Map<Seq<char>, serde_json::Value>) -> Seq<char>;

/// The entries of the JSON object that `serde_json::from_str` reads from a
/// text, or `None` when the text is not a JSON object.
pub uninterp spec fn json_object_of_text(text: Seq<char>) -> Option<Map<Seq<char>, serde_json::Value>>;

/// The JSON boolean `b`.
pub uninterp spec fn json_bool(b: bool) -> serde_json::Value;

/// The JSON number `n`.
pub uninterp spec fn json_u64(n: u64) -> serde_json::Value;

/// The JSON string `s`.
pub uninterp spec fn json_string(s: Seq<char>) -> serde_json::Value;

/// The JSON array of strings `items`.
pub uninterp spec fn json_string_array(items: Seq<Seq<char>>) -> serde_json::Value;

/// The JSON object with these entries.
pub uninterp spec fn json_object(entries: Map<Seq<char>, serde_json::Value>) -> serde_json::Value;

/// An object without entries.
pub open spec fn no_entries() -> Map<Seq<char>, serde_json::Value> {
    Map::empty()
}

/// Makes an empty map with `serde_json::Map::new`.
#[verifier::external_body]
pub(crate) fn json_map_new() -> (r: JsonObject)
    ensures
        json_entries(r) == no_entries(),
{
    serde_json::Map::new()
}

/// Inserts or replaces an entry with `serde_json::Map::insert`.
#[verifier::external_body]
pub(crate) fn json_map_insert(m: &mut JsonObject, key: String, value: serde_json::Value)
    ensures
        json_entries(*final(m)) == json_entries(*old(m)).insert(key@, value),
{
    m.insert(key, value);
}

/// Removes an entry with `serde_json::Map::remove`.
#[verifier::external_body]
pub(crate) fn json_map_remove(m: &mut JsonObject, key: &str)
    ensures
        json_entries(*final(m)) == json_entries(*old(m)).remove(key@),
{
    m.remove(key);
}

/// Reads a JSON object with `serde_json::from_str`; a failure is reported
/// by the error's message.
#[verifier::external_body]
pub(crate) fn json_map_from_str(text: &str) -> (r: Result<JsonObject, String>)
    ensures
        r is Ok <==> json_object_of_text(text@) is Some,
        r matches Ok(m) ==> Some(json_entries(m)) == json_object_of_text(text@),
{
    serde_json::from_str(text).map_err(|e| e.to_string())
}

/// Writes a JSON object with `serde_json::to_string`. A map with string
/// keys always serializes, so the text is always there; a failure would be
/// reported by the error's message.
#[verifier::external_body]
pub(crate) fn json_map_to_string(m: &JsonObject) -> (r: Result<String, String>)
    ensures
        r is Ok,
        r matches Ok(s) ==> s@ == json_text_of(json_entries(*m)),
{
    serde_json::to_string(m).map_err(|e| e.to_string())
}

/// The value `Value::Bool(b)`.
#[verifier::external_body]
pub(crate) fn json_bool_value(b: bool) -> (v: serde_json::Value)
    ensures
        v == json_bool(b),
{
    serde_json::Value::Bool(b)
}

/// The number value of `n`, through `Value::from`.
#[verifier::external_body]
pub(crate) fn json_u64_value(n: u64) -> (v: serde_json::Value)
    ensures
        v == json_u64(n),
{
    serde_json::Value::from(n)
}

/// The value `Value::String(s)`.
#[verifier::external_body]
pub(crate) fn json_string_value(s: String) -> (v: serde_json::Value)
    ensures
        v == json_string(s@),
{
    serde_json::Value::String(s)
}

/// The array of strings `items`, through `Value::from`.
#[verifier::external_body]
pub(crate) fn json_string_array_value(items: Vec<String>) -> (v: serde_json::Value)
    ensures
        v == json_string_array(string_views(items@)),
{
    serde_json::Value::from(items)
}

/// The value `Value::Object(m)`.
#[verifier::external_body]
pub(crate) fn json_object_value(m: JsonObject) -> (v: serde_json::Value)
    ensures
        v == json_object(json_entries(m)),
{
    serde_json::Value::Object(m)
}

} // verus!
