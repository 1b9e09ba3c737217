//! Access to JSON documents held as `serde_json::Value`.
//!
//! A `Value` is opaque here: what the library knows of one is what the
//! accessors below return on it. Objects are `serde_json::Map`s whose
//! contents are modelled as a map from key to value.
use serde_json::Value;
use vstd::prelude::*;

verus! {

/// `serde_json::Value`, carried as an opaque JSON document.
#[verifier::external_type_specification]
#[verifier::external_body]
pub struct ExValue(serde_json::Value);

/// `serde_json::Map`, the map of a JSON object; its contents are
/// [`object_entries`].
#[verifier::external_type_specification]
#[verifier::external_body]
#[verifier::reject_recursive_types(K)]
#[verifier::reject_recursive_types(V)]
pub struct ExJsonMap<K, V>(serde_json::Map<K, V>);

/// `serde_json::Error`, carried as the cause of a failure.
#[verifier::external_type_specification]
#[verifier::external_body]
pub struct ExJsonError(serde_json::Error);

/// Relies on `Value::clone`, which the types that hold a value derive; nothing
/// is claimed of the copy.
pub assume_specification[ <serde_json::Value as core::clone::Clone>::clone ](v: &serde_json::Value) -> serde_json::Value;

/// A JSON object: keys are strings.
pub type JsonObject = serde_json::Map<String, Value>;

/// The entries of a JSON object.
pub uninterp spec fn object_entries(m: serde_json::Map<String, Value>) -> Map<Seq<char>, Value>;

/// What `Value::as_object` finds in a value, as entries.
pub uninterp spec fn value_as_object(v: Value) -> Option<Map<Seq<char>, Value>>;

/// What `Value::as_str` finds in a value.
pub uninterp spec fn value_as_str(v: Value) -> Option<Seq<char>>;

/// What `Value::as_u64` finds in a value.
pub uninterp spec fn value_as_u64(v: Value) -> Option<u64>;

/// What `Value::as_i64` finds in a value.
pub uninterp spec fn value_as_i64(v: Value) -> Option<i64>;

/// What `Value::is_null` says of a value.
pub uninterp spec fn value_is_null(v: Value) -> bool;

/// The value that `serde_json::from_str` reads from a text, if the text is JSON.
pub uninterp spec fn parsed_json(text: Seq<char>) -> Option<Value>;

/// The text that `serde_json::to_string` writes for a value.
pub uninterp spec fn json_text(v: Value) -> Seq<char>;

/// The entries of an empty object.
pub open spec fn no_entries() -> Map<Seq<char>, Value> {
    Map::empty()
}

/// Relies on `serde_json::Map::new`: a new map is empty.
#[verifier::external_body]
pub fn new_object() -> (r: JsonObject)
    ensures
        object_entries(r) == no_entries(),
{
    serde_json::Map::new()
}

/// Relies on `serde_json::Map::insert`: the key maps to the value afterwards,
/// the other entries stay, and the value that the key had is handed back.
#[verifier::external_body]
pub fn object_insert(m: &mut JsonObject, k: String, v: Value) -> (r: Option<Value>)
    ensures
        object_entries(*final(m)) == object_entries(*old(m)).insert(k@, v),
        object_entries(*old(m)).contains_key(k@) ==> r == Some(object_entries(*old(m))[k@]),
        !object_entries(*old(m)).contains_key(k@) ==> r is None,
{
    m.insert(k, v)
}

/// Relies on `serde_json::Map::remove`: hands back the value under the key,
/// if any, and leaves the map without it.
#[verifier::external_body]
pub fn object_remove(m: &mut JsonObject, k: &str) -> (r: Option<Value>)
    ensures
        object_entries(*final(m)) == object_entries(*old(m)).remove(k@),
        object_entries(*old(m)).contains_key(k@) ==> r == Some(object_entries(*old(m))[k@]),
        !object_entries(*old(m)).contains_key(k@) ==> r is None,
{
    m.remove(k)
}

/// Relies on `Value::Object`: the value holds the map's entries, and is not null.
#[verifier::external_body]
pub fn object_value(m: JsonObject) -> (r: Value)
    ensures
        value_as_object(r) == Some(object_entries(m)),
        !value_is_null(r),
{
    Value::Object(m)
}

/// Relies on `Value::Object`: takes the map out of an object value.
#[verifier::external_body]
pub fn into_object(v: Value) -> (r: Option<JsonObject>)
    ensures
        r is Some <==> value_as_object(v) is Some,
        r matches Some(m) ==> value_as_object(v) == Some(object_entries(m)),
{
    match v {
        Value::Object(m) => Some(m),
        _ => None,
    }
}

/// Relies on `Value::String` and `Value::as_str`: the value holds the string,
/// and is not null.
#[verifier::external_body]
pub fn string_value(s: String) -> (r: Value)
    ensures
        value_as_str(r) == Some(s@),
        !value_is_null(r),
{
    Value::String(s)
}

/// Relies on `Value::as_str`.
#[verifier::external_body]
pub fn as_string(v: &Value) -> (r: Option<String>)
    ensures
        r is Some <==> value_as_str(*v) is Some,
        r matches Some(s) ==> value_as_str(*v) == Some(s@),
{
    v.as_str().map(String::from)
}

/// Relies on `Value::from(u64)` and `Value::as_u64`: the value is that
/// number, and is not null.
#[verifier::external_body]
pub fn u64_value(x: u64) -> (r: Value)
    ensures
        value_as_u64(r) == Some(x),
        !value_is_null(r),
{
    Value::from(x)
}

/// Relies on `Value::as_u64`.
#[verifier::external_body]
pub fn as_u64(v: &Value) -> (r: Option<u64>)
    ensures
        r == value_as_u64(*v),
{
    v.as_u64()
}

/// Relies on `Value::from(i64)` and `Value::as_i64`: the value is that
/// number, and is not null.
#[verifier::external_body]
pub fn i64_value(x: i64) -> (r: Value)
    ensures
        value_as_i64(r) == Some(x),
        !value_is_null(r),
{
    Value::from(x)
}

/// Relies on `Value::as_i64`.
#[verifier::external_body]
pub fn as_i64(v: &Value) -> (r: Option<i64>)
    ensures
        r == value_as_i64(*v),
{
    v.as_i64()
}

/// Relies on `Value::Null` and `Value::is_null`.
#[verifier::external_body]
pub fn null_value() -> (r: Value)
    ensures
        value_is_null(r),
{
    Value::Null
}

/// Relies on `Value::is_null`.
#[verifier::external_body]
pub fn is_null(v: &Value) -> (r: bool)
    ensures
        r == value_is_null(*v),
{
    v.is_null()
}

/// Relies on `serde_json::from_str` into a `Value`: the outcome depends on
/// the text alone.
#[verifier::external_body]
pub fn parse_json(text: &str) -> (r: Result<Value, serde_json::Error>)
    ensures
        r is Ok <==> parsed_json(text@) is Some,
        r matches Ok(v) ==> parsed_json(text@) == Some(v),
{
    serde_json::from_str::<Value>(text)
}

/// Relies on `serde_json::to_string` of a `Value`, which has string keys
/// only and so always serialises.
#[verifier::external_body]
pub fn write_json(v: &Value) -> (r: Result<String, serde_json::Error>)
    ensures
        r is Ok,
        r matches Ok(s) ==> s@ == json_text(*v),
{
    serde_json::to_string(v)
}

} // verus!
