//! The JSON values that hooks deliver, as this library sees them.
//!
//! Payloads arrive as `serde_json::Value`. Verification cannot look inside such a
//! value, so this module gives it a mathematical model, [`Json`], and states the
//! effect of every `serde_json` operation the library uses over that model. The
//! functions marked `external_body` are believed, not proved; each names the
//! `serde_json` item it stands for.

use vstd::prelude::*;
use serde_json::Value;

verus! {

/// Model of a JSON number: a non-negative integer, a negative integer, or a
/// finite binary floating-point number given by its IEEE-754 bit pattern.
pub enum JsonNumber {
    PosInt(u64),
    NegInt(i64),
    Float(u64),
}

/// Model of a JSON value. Objects are maps from member name to member value:
/// `serde_json` keeps object members sorted by name, so the order of insertion is
/// not part of the value.
pub enum Json {
    Null,
    Bool(bool),
    Number(JsonNumber),
    String(Seq<char>),
    Array(Seq<Json>),
    Object(Map<Seq<char>, Json>),
}

/// `serde_json::Value`, taken as it is: nothing is said of what is inside.
#[verifier::external_type_specification]
#[verifier::external_body]
pub struct ExValue(serde_json::Value);

/// `serde_json::Map`, taken as it is: nothing is said of what is inside.
#[verifier::external_type_specification]
#[verifier::external_body]
#[verifier::reject_recursive_types(K)]
#[verifier::reject_recursive_types(V)]
pub struct ExJsonMap<K, V>(serde_json::Map<K, V>);

/// The map type that `serde_json` keeps the members of an object in.
pub type JsonMap = serde_json::Map<String, Value>;

/// The JSON value that a `serde_json::Value` holds.
pub uninterp spec fn json_model(v: Value) -> Json;

/// The members that a `serde_json::Map` holds, by name.
pub uninterp spec fn json_members(m: JsonMap) -> Map<Seq<char>, Json>;

/// The compact text that `serde_json` writes for a JSON value. It is a function
/// of the value alone because the members of an object are kept sorted by name
/// and integers are kept as integers.
pub uninterp spec fn json_text(j: Json) -> Seq<char>;

/// The member `key` of `j`, if `j` is an object that has one.
pub open spec fn member(j: Json, key: Seq<char>) -> Option<Json> {
    match j {
        Json::Object(m) => if m.contains_key(key) {
            Some(m[key])
        } else {
            None
        },
        _ => None,
    }
}

/// The text of `j`, if `j` is a JSON string.
pub open spec fn text_of(j: Json) -> Option<Seq<char>> {
    match j {
        Json::String(s) => Some(s),
        _ => None,
    }
}

/// The text of member `key` of `j`, if `j` is an object whose member `key` is a
/// string.
pub open spec fn str_member(j: Json, key: Seq<char>) -> Option<Seq<char>> {
    match member(j, key) {
        Some(child) => text_of(child),
        None => None,
    }
}

/// The integer that `j` holds, if `j` is an integral number within `i64`.
pub open spec fn int_of(j: Json) -> Option<i64> {
    match j {
        Json::Number(JsonNumber::PosInt(n)) => if n <= i64::MAX {
            Some(n as i64)
        } else {
            None
        },
        Json::Number(JsonNumber::NegInt(n)) => Some(n),
        _ => None,
    }
}

/// The JSON number that stands for the integer `n`.
pub open spec fn number_of(n: i64) -> Json {
    if n < 0 {
        Json::Number(JsonNumber::NegInt(n))
    } else {
        Json::Number(JsonNumber::PosInt(n as u64))
    }
}

/// The member map without members.
pub open spec fn no_members() -> Map<Seq<char>, Json> {
    Map::empty()
}

/// The empty JSON object.
pub open spec fn empty_object() -> Json {
    Json::Object(no_members())
}

/// `Value::get` with a string index: the member of that name when the value is
/// an object that has it, nothing otherwise.
#[verifier::external_body]
pub(crate) fn value_get<'a>(v: &'a Value, key: &str) -> (r: Option<&'a Value>)
    ensures
        match r {
            Some(child) => member(json_model(*v), key@) == Some(json_model(*child)),
            None => member(json_model(*v), key@) is None,
        },
{
    v.get(key)
}

/// `Value::as_str`: the text when the value is a string, nothing otherwise.
#[verifier::external_body]
pub(crate) fn value_as_str<'a>(v: &'a Value) -> (r: Option<&'a str>)
    ensures
        match r {
            Some(s) => text_of(json_model(*v)) == Some(s@),
            None => text_of(json_model(*v)) is None,
        },
{
    v.as_str()
}

/// `Value::is_null`: whether the value is JSON null.
#[verifier::external_body]
pub(crate) fn value_is_null(v: &Value) -> (r: bool)
    ensures
        r == (json_model(*v) is Null),
{
    v.is_null()
}

/// `Value::as_i64`: the integer when the value is an integral number that fits
/// `i64`, nothing otherwise.
#[verifier::external_body]
pub(crate) fn value_as_i64(v: &Value) -> (r: Option<i64>)
    ensures
        r == int_of(json_model(*v)),
{
    v.as_i64()
}

/// `Value::to_string`: the compact JSON text of the value.
#[verifier::external_body]
pub(crate) fn value_to_string(v: &Value) -> (r: String)
    ensures
        r@ == json_text(json_model(*v)),
{
    v.to_string()
}

/// `Value::clone`: a value that holds the same JSON.
#[verifier::external_body]
pub(crate) fn value_clone(v: &Value) -> (r: Value)
    ensures
        json_model(r) == json_model(*v),
{
    v.clone()
}

/// `Value::Null`: the JSON null.
#[verifier::external_body]
pub(crate) fn value_null() -> (r: Value)
    ensures
        json_model(r) == Json::Null,
{
    Value::Null
}

/// `Value::String`: the JSON string with the given text.
#[verifier::external_body]
pub(crate) fn value_from_string(s: String) -> (r: Value)
    ensures
        json_model(r) == Json::String(s@),
{
    Value::String(s)
}

/// `Value::from` on an `i64`: the JSON number for that integer, stored as a
/// negative integer below zero and as a non-negative one otherwise.
#[verifier::external_body]
pub(crate) fn value_from_i64(n: i64) -> (r: Value)
    ensures
        json_model(r) == number_of(n),
{
    Value::from(n)
}

/// `Map::new`: a map without members.
#[verifier::external_body]
pub(crate) fn map_new() -> (r: JsonMap)
    ensures
        json_members(r) == no_members(),
{
    serde_json::Map::new()
}

/// `Map::insert`: the member `key` now holds `value`, whether or not the map had
/// a member of that name; the other members are as before.
#[verifier::external_body]
pub(crate) fn map_insert(m: &mut JsonMap, key: String, value: Value)
    ensures
        json_members(*final(m)) == json_members(*old(m)).insert(key@, json_model(value)),
{
    m.insert(key, value);
}

/// `Value::Object`: the JSON object with the members of the map.
#[verifier::external_body]
pub(crate) fn value_from_map(m: JsonMap) -> (r: Value)
    ensures
        json_model(r) == Json::Object(json_members(m)),
{
    Value::Object(m)
}

/// The text of member `key` of `v`, when `v` is an object whose member `key` is
/// a string.
pub fn get_str<'a>(v: &'a Value, key: &str) -> (r: Option<&'a str>)
    ensures
        match r {
            Some(s) => str_member(json_model(*v), key@) == Some(s@),
            None => str_member(json_model(*v), key@) is None,
        },
{
    match value_get(v, key) {
        Some(child) => value_as_str(child),
        None => None,
    }
}

} // verus!
