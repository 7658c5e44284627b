//! JSON documents, as the providers' HTTP interfaces take and return them.
//! The documents are `serde_json`'s; this module says what each one holds.

use vstd::prelude::*;

verus! {

/// What a JSON document holds.
pub enum JsonView {
    Null,
    Bool(bool),
    /// A number. No contract here reads its value.
    Number,
    Text(Seq<char>),
    Array(Seq<JsonView>),
    Object(Map<Seq<char>, JsonView>),
}

#[verifier::external_type_specification]
#[verifier::external_body]
pub struct ExJsonValue(serde_json::Value);

#[verifier::external_type_specification]
#[verifier::external_body]
#[verifier::reject_recursive_types(K)]
#[verifier::reject_recursive_types(V)]
pub struct ExJsonMap<K, V>(serde_json::Map<K, V>);

#[verifier::external_type_specification]
#[verifier::external_body]
pub struct ExJsonError(serde_json::Error);

/// What a document holds.
pub uninterp spec fn json_model(doc: serde_json::Value) -> JsonView;

/// The entries of a JSON object while it is put together: each key with
/// what its value holds.
pub uninterp spec fn map_model(entries: serde_json::Map<String, serde_json::Value>) -> Map<
    Seq<char>,
    JsonView,
>;

/// What reading a text as JSON gives: the document, or the reason for
/// which the text is none.
pub uninterp spec fn json_from_text(text: Seq<char>) -> Result<
    serde_json::Value,
    serde_json::Error,
>;

/// What each document of a sequence holds, in order.
pub open spec fn json_models(docs: Seq<serde_json::Value>) -> Seq<JsonView> {
    docs.map_values(|d: serde_json::Value| json_model(d))
}

/// `From<&str>` of `serde_json::Value`: the JSON string of the text.
#[verifier::external_body]
pub(crate) fn json_string(s: &str) -> (r: serde_json::Value)
    ensures
        json_model(r) == JsonView::Text(s@),
{
    serde_json::Value::from(s)
}

/// The variant `Array` of `serde_json::Value`: the JSON array of the
/// documents, in their order.
#[verifier::external_body]
pub(crate) fn json_array(items: Vec<serde_json::Value>) -> (r: serde_json::Value)
    ensures
        json_model(r) == JsonView::Array(json_models(items@)),
{
    serde_json::Value::Array(items)
}

/// `Map::new` of serde_json: a map without entries.
#[verifier::external_body]
pub(crate) fn map_new() -> (r: serde_json::Map<String, serde_json::Value>)
    ensures
        map_model(r) == (Map::<Seq<char>, JsonView>::empty()),
{
    serde_json::Map::new()
}

/// `Map::insert` of serde_json: the key holds the value afterwards, whether
/// or not it held one before, and every other key holds what it held.
#[verifier::external_body]
pub(crate) fn map_insert(
    map: &mut serde_json::Map<String, serde_json::Value>,
    key: String,
    value: serde_json::Value,
)
    ensures
        map_model(*final(map)) == map_model(*old(map)).insert(key@, json_model(value)),
{
    map.insert(key, value);
}

/// The variant `Object` of `serde_json::Value`: the JSON object of the
/// entries.
#[verifier::external_body]
pub(crate) fn json_object(entries: serde_json::Map<String, serde_json::Value>) -> (r:
    serde_json::Value)
    ensures
        json_model(r) == JsonView::Object(map_model(entries)),
{
    serde_json::Value::Object(entries)
}

/// `serde_json::from_str`, read as a `Value`. The same text gives the same
/// result.
#[verifier::external_body]
pub(crate) fn json_from_str(text: &str) -> (r: Result<serde_json::Value, serde_json::Error>)
    ensures
        r == json_from_text(text@),
{
    serde_json::from_str::<serde_json::Value>(text)
}

/// `Value::get` of serde_json with a string key: the value under the key
/// where the document is an object that has the key, nothing otherwise.
#[verifier::external_body]
pub(crate) fn json_get<'a>(doc: &'a serde_json::Value, key: &str) -> (r: Option<
    &'a serde_json::Value,
>)
    ensures
        match r {
            Some(v) => json_model(*doc) matches JsonView::Object(m) && m.contains_key(key@)
                && json_model(*v) == m[key@],
            None => !(json_model(*doc) matches JsonView::Object(m) && m.contains_key(key@)),
        },
{
    doc.get(key)
}

/// `Value::as_bool` of serde_json: the boolean where the document is one.
#[verifier::external_body]
pub(crate) fn json_as_bool(doc: &serde_json::Value) -> (r: Option<bool>)
    ensures
        r == match json_model(*doc) {
            JsonView::Bool(b) => Some(b),
            _ => None,
        },
{
    doc.as_bool()
}

/// `Value::as_array` of serde_json: the items where the document is an
/// array.
#[verifier::external_body]
pub(crate) fn json_as_array(doc: &serde_json::Value) -> (r: Option<&Vec<serde_json::Value>>)
    ensures
        match r {
            Some(items) => json_model(*doc) == JsonView::Array(json_models(items@)),
            None => !(json_model(*doc) is Array),
        },
{
    doc.as_array()
}

/// `Value::as_str` of serde_json: the text where the document is a string.
#[verifier::external_body]
pub(crate) fn json_as_str(doc: &serde_json::Value) -> (r: Option<&str>)
    ensures
        match r {
            Some(s) => json_model(*doc) == JsonView::Text(s@),
            None => !(json_model(*doc) is Text),
        },
{
    doc.as_str()
}

} // verus!
