use vstd::prelude::*;

verus! {

#[verifier::external_type_specification]
#[verifier::external_body]
pub struct ExJsonValue(serde_json::Value);

#[verifier::external_type_specification]
#[verifier::external_body]
#[verifier::reject_recursive_types(K)]
#[verifier::reject_recursive_types(V)]
pub struct ExJsonMap<K, V>(serde_json::Map<K, V>);

/// A JSON object's members, keyed by name.
pub type JsonMap = serde_json::Map<String, serde_json::Value>;

/// The JSON document that a text holds, if it holds exactly one.
pub uninterp spec fn parsed_json(text: Seq<char>) -> Option<serde_json::Value>;

/// The members of a JSON value that is an object.
pub uninterp spec fn json_object_of(v: serde_json::Value) -> Option<JsonMap>;

/// The text of a JSON value that is a string.
pub uninterp spec fn json_str_of(v: serde_json::Value) -> Option<Seq<char>>;

/// The items of a JSON value that is an array.
pub uninterp spec fn json_array_of(v: serde_json::Value) -> Option<Seq<serde_json::Value>>;

/// What a JSON object map holds, by key.
pub uninterp spec fn json_entries(m: JsonMap) -> Map<Seq<char>, serde_json::Value>;

/// The compact JSON text of a value.
pub uninterp spec fn json_text(v: serde_json::Value) -> Seq<char>;

/// Relies on `Clone for serde_json::Value`: a clone is the same JSON value.
pub assume_specification[ <serde_json::Value as Clone>::clone ](v: &serde_json::Value) -> (r: serde_json::Value)
    ensures
        r == *v,
;

/// Relies on `serde_json::from_str::<Value>`: it reads one JSON document,
/// with nothing but whitespace around it.
#[verifier::external_body]
pub(crate) fn parse_json(text: &str) -> (r: Option<serde_json::Value>)
    ensures
        r == parsed_json(text@),
{
    serde_json::from_str::<serde_json::Value>(text).ok()
}

/// Relies on `serde_json::Value::as_object`: the members of an object, `None` for other values.
#[verifier::external_body]
pub(crate) fn json_object(v: &serde_json::Value) -> (r: Option<JsonMap>)
    ensures
        r == json_object_of(*v),
{
    v.as_object().cloned()
}

/// Relies on `serde_json::Value::as_str`: the text of a string, `None` for other values.
#[verifier::external_body]
pub(crate) fn json_str(v: &serde_json::Value) -> (r: Option<String>)
    ensures
        match r {
            Some(s) => json_str_of(*v) == Some(s@),
            None => json_str_of(*v).is_none(),
        },
{
    v.as_str().map(String::from)
}

/// Relies on `serde_json::Value::String`: a string value holds its text and is no object.
#[verifier::external_body]
pub(crate) fn json_from_string(s: String) -> (r: serde_json::Value)
    ensures
        json_str_of(r) == Some(s@) && json_object_of(r).is_none(),
{
    serde_json::Value::String(s)
}

/// Relies on `serde_json::Value::Object`: an object value holds exactly the given map.
#[verifier::external_body]
pub(crate) fn json_from_map(m: JsonMap) -> (r: serde_json::Value)
    ensures
        json_object_of(r) == Some(m) && json_str_of(r).is_none(),
{
    serde_json::Value::Object(m)
}

/// Relies on `serde_json::Value::Array`: an array value holds exactly the given items.
#[verifier::external_body]
pub(crate) fn json_from_items(items: Vec<serde_json::Value>) -> (r: serde_json::Value)
    ensures
        json_array_of(r) == Some(items@) && json_object_of(r).is_none(),
{
    serde_json::Value::Array(items)
}

/// Relies on `serde_json::Map::new`: a new map is empty.
#[verifier::external_body]
pub(crate) fn json_map_new() -> (r: JsonMap)
    ensures
        json_entries(r) =~= Map::empty(),
{
    serde_json::Map::new()
}

/// Relies on `serde_json::Map::insert`: the key now maps to the value, the other keys are kept.
#[verifier::external_body]
pub(crate) fn json_map_insert(m: &mut JsonMap, key: String, value: serde_json::Value)
    ensures
        json_entries(*final(m)) == json_entries(*old(m)).insert(key@, value),
{
    m.insert(key, value);
}

/// Relies on `serde_json::Map::len`: the number of keys.
#[verifier::external_body]
pub(crate) fn json_map_len(m: &JsonMap) -> (r: usize)
    ensures
        r == json_entries(*m).dom().len(),
{
    m.len()
}

/// Relies on `serde_json::Map::get`: the value under a key, if the key is there.
#[verifier::external_body]
pub(crate) fn json_map_get(m: &JsonMap, key: &str) -> (r: Option<serde_json::Value>)
    ensures
        r == (if json_entries(*m).contains_key(key@) {
            Some(json_entries(*m)[key@])
        } else {
            None::<serde_json::Value>
        }),
{
    m.get(key).cloned()
}

/// Relies on `Display for serde_json::Value`: the compact JSON text.
#[verifier::external_body]
pub(crate) fn render_json(v: &serde_json::Value) -> (r: String)
    ensures
        r@ == json_text(*v),
{
    v.to_string()
}

} // verus!
