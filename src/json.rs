//! A mathematical model of JSON values, and the few `serde_json` operations
//! the library relies on, stated over that model.
use vstd::prelude::*;

verus! {

/// What a JSON value denotes. A number is kept as the text that `serde_json`
/// writes for it, so texts that parse to one number (`1.0`, `1.00`) give one
/// model.
pub enum JsonModel {
    Null,
    Bool(bool),
    Number(Seq<char>),
    Str(Seq<char>),
    Array(Seq<JsonModel>),
    Object(Map<Seq<char>, JsonModel>),
}

#[verifier::external_type_specification]
#[verifier::external_body]
pub struct ExValue(serde_json::Value);

#[verifier::external_type_specification]
#[verifier::external_body]
#[verifier::reject_recursive_types(K)]
#[verifier::reject_recursive_types(V)]
pub struct ExObject<K, V>(serde_json::Map<K, V>);

/// A JSON object as `serde_json` holds it.
pub type JsonObject = serde_json::Map<String, serde_json::Value>;

/// The JSON value that a `serde_json::Value` holds.
pub uninterp spec fn json_model(v: serde_json::Value) -> JsonModel;

/// The members that a `serde_json::Map` holds.
pub uninterp spec fn object_fields(m: JsonObject) -> Map<Seq<char>, JsonModel>;

/// The value that `serde_json` parses out of a text, if the text is JSON.
pub uninterp spec fn json_of_text(s: Seq<char>) -> Option<JsonModel>;

/// The value that `serde_json` parses out of bytes, if they are UTF-8 JSON.
pub uninterp spec fn json_of_bytes(b: Seq<u8>) -> Option<JsonModel>;

/// Relies on `serde_json::from_str::<Value>`: whether it succeeds, and what
/// it parses, depends on the text alone.
#[verifier::external_body]
pub(crate) fn parse_json(s: &str) -> (r: Option<serde_json::Value>)
    ensures
        r is Some <==> json_of_text(s@) is Some,
        r matches Some(v) ==> json_of_text(s@) == Some(json_model(v)),
{
    serde_json::from_str::<serde_json::Value>(s).ok()
}

/// Relies on `serde_json::from_slice::<Value>`: it fails on bytes that are
/// not UTF-8 JSON text, and whether it succeeds, and what it parses, depends
/// on the bytes alone.
#[verifier::external_body]
pub(crate) fn parse_json_bytes(b: &[u8]) -> (r: Option<serde_json::Value>)
    ensures
        r is Some <==> json_of_bytes(b@) is Some,
        r matches Some(v) ==> json_of_bytes(b@) == Some(json_model(v)),
{
    serde_json::from_slice::<serde_json::Value>(b).ok()
}

/// Relies on `serde_json::Value::as_object`: the members of an object.
#[verifier::external_body]
pub(crate) fn value_object<'a>(v: &'a serde_json::Value) -> (r: Option<&'a JsonObject>)
    ensures
        r is Some <==> json_model(*v) is Object,
        r matches Some(m) ==> json_model(*v) == JsonModel::Object(object_fields(*m)),
{
    v.as_object()
}

/// Relies on `serde_json::Value::as_str`: the text of a JSON string.
#[verifier::external_body]
pub(crate) fn value_text(v: &serde_json::Value) -> (r: Option<String>)
    ensures
        r is Some <==> json_model(*v) is Str,
        r matches Some(s) ==> json_model(*v) == JsonModel::Str(s@),
{
    v.as_str().map(|s| s.to_string())
}

/// Relies on the `serde_json::Value::Array` variant: the elements of an array.
#[verifier::external_body]
pub(crate) fn into_elements(v: serde_json::Value) -> (r: Result<Vec<serde_json::Value>, serde_json::Value>)
    ensures
        r is Ok <==> json_model(v) is Array,
        r matches Ok(a) ==> json_model(v) == JsonModel::Array(a@.map_values(|x: serde_json::Value| json_model(x))),
        r matches Err(w) ==> w == v,
{
    match v {
        serde_json::Value::Array(a) => Ok(a),
        other => Err(other),
    }
}

/// Relies on the `serde_json::Value::Object` variant: the members of an object.
#[verifier::external_body]
pub(crate) fn into_object(v: serde_json::Value) -> (r: Result<JsonObject, serde_json::Value>)
    ensures
        r is Ok <==> json_model(v) is Object,
        r matches Ok(m) ==> json_model(v) == JsonModel::Object(object_fields(m)),
        r matches Err(w) ==> w == v,
{
    match v {
        serde_json::Value::Object(m) => Ok(m),
        other => Err(other),
    }
}

/// Relies on `From<Map<String, Value>> for Value`: an object value.
#[verifier::external_body]
pub(crate) fn object_value(m: JsonObject) -> (r: serde_json::Value)
    ensures
        json_model(r) == JsonModel::Object(object_fields(m)),
{
    serde_json::Value::from(m)
}

/// Relies on `From<String> for Value`: a string value.
#[verifier::external_body]
pub(crate) fn text_value(s: String) -> (r: serde_json::Value)
    ensures
        json_model(r) == JsonModel::Str(s@),
{
    serde_json::Value::from(s)
}

/// Relies on `serde_json::Map::new`: an object without members.
#[verifier::external_body]
pub(crate) fn empty_object() -> (r: JsonObject)
    ensures
        object_fields(r).dom().is_empty(),
{
    serde_json::Map::new()
}

/// Relies on `serde_json::Map::insert`: the key now holds the value, and the
/// other members stay.
#[verifier::external_body]
pub(crate) fn object_insert(m: &mut JsonObject, key: String, v: serde_json::Value)
    ensures
        object_fields(*final(m)) == object_fields(*old(m)).insert(key@, json_model(v)),
{
    m.insert(key, v);
}

/// Relies on `serde_json::Map::get`: the member under a key.
#[verifier::external_body]
pub(crate) fn object_member<'a>(m: &'a JsonObject, key: &str) -> (r: Option<&'a serde_json::Value>)
    ensures
        r is Some <==> object_fields(*m).contains_key(key@),
        r matches Some(x) ==> object_fields(*m)[key@] == json_model(*x),
{
    m.get(key)
}

/// Relies on `From<Vec<Value>> for Value`: an array value.
#[verifier::external_body]
pub(crate) fn array_value(a: Vec<serde_json::Value>) -> (r: serde_json::Value)
    ensures
        json_model(r) == JsonModel::Array(a@.map_values(|x: serde_json::Value| json_model(x))),
{
    serde_json::Value::from(a)
}

/// The compact JSON text that `serde_json` writes for a value.
pub uninterp spec fn json_encoding(v: JsonModel) -> Seq<char>;

/// Relies on `Display` for `serde_json::Value`: the compact JSON text of the
/// value, which depends on the value alone.
#[verifier::external_body]
pub(crate) fn encode_json(v: &serde_json::Value) -> (r: String)
    ensures
        r@ == json_encoding(json_model(*v)),
{
    serde_json::Value::to_string(v)
}

} // verus!
