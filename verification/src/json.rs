//! A mathematical model of JSON values, and the calls into `serde_json` that
//! the protocol codec is built on.
//!
//! Nothing in this module is proved: each function states what the
//! `serde_json` function it calls does, and the codec is verified against
//! those statements. The statements hold for `serde_json` built without its
//! `preserve_order` and `arbitrary_precision` features, where an object is a
//! map ordered by key and a number is an unsigned integer, a negative
//! integer or a finite float.

use vstd::prelude::*;

verus! {

/// What a `serde_json::Value` holds.
pub enum Json {
    Null,
    Bool(bool),
    /// A number held as an integer.
    Integer(int),
    /// A number held as a binary64 float, given by its IEEE-754 bit pattern.
    Float(u64),
    Text(Seq<char>),
    Array(Seq<Json>),
    Object(Map<Seq<char>, Json>),
}

/// The member of an object under a key; `None` for a missing key and for a
/// value that is no object.
pub open spec fn member_of(j: Json, key: Seq<char>) -> Option<Json> {
    match j {
        Json::Object(members) => if members.contains_key(key) {
            Some(members[key])
        } else {
            None
        },
        _ => None,
    }
}

/// The string that a value is, if it is one.
pub open spec fn text_of(j: Json) -> Option<Seq<char>> {
    match j {
        Json::Text(s) => Some(s),
        _ => None,
    }
}

/// The boolean that a value is, if it is one.
pub open spec fn flag_of(j: Json) -> Option<bool> {
    match j {
        Json::Bool(b) => Some(b),
        _ => None,
    }
}

/// The value with one more member, or with the member under `key` replaced.
pub open spec fn with_member(j: Json, key: Seq<char>, member: Json) -> Json {
    match j {
        Json::Object(members) => Json::Object(members.insert(key, member)),
        _ => j,
    }
}

#[verifier::external_type_specification]
#[verifier::external_body]
pub struct ExValue(serde_json::Value);

/// The contents of a `serde_json::Value`.
pub uninterp spec fn json_model(v: serde_json::Value) -> Json;

/// What `serde_json::from_str` makes of a text when asked for a
/// `serde_json::Value`: the contents of the value, or `None` where it
/// reports an error.
pub uninterp spec fn json_parse(text: Seq<char>) -> Option<Json>;

/// What `serde_json::Value::as_f64` reads from a value, as the bit pattern of
/// the float.
pub uninterp spec fn json_as_float(j: Json) -> Option<u64>;

/// The text that `serde_json::to_string` writes for a value; empty where it
/// reports an error.
pub uninterp spec fn json_text(j: Json) -> Seq<char>;

/// Calls `serde_json::from_str` for a `serde_json::Value`. The result is a
/// function of the text alone; an error of the parser becomes `None`.
#[verifier::external_body]
pub(crate) fn parse(text: &str) -> (r: Option<serde_json::Value>)
    ensures
        r matches Some(v) ==> json_parse(text@) == Some(json_model(v)),
        r is None ==> json_parse(text@) is None,
{
    serde_json::from_str::<serde_json::Value>(text).ok()
}

/// Calls `serde_json::Value::get` with a string key: the member under that
/// key where the value is an object that has one, else `None`.
#[verifier::external_body]
pub(crate) fn member<'a>(v: &'a serde_json::Value, key: &str) -> (r: Option<&'a serde_json::Value>)
    ensures
        r matches Some(m) ==> member_of(json_model(*v), key@) == Some(json_model(*m)),
        r is None ==> member_of(json_model(*v), key@) is None,
{
    v.get(key)
}

/// Calls `serde_json::Value::as_str`: the string where the value is one,
/// else `None`.
#[verifier::external_body]
pub(crate) fn as_text<'a>(v: &'a serde_json::Value) -> (r: Option<&'a str>)
    ensures
        r matches Some(s) ==> text_of(json_model(*v)) == Some(s@),
        r is None ==> text_of(json_model(*v)) is None,
{
    v.as_str()
}

/// Calls `serde_json::Value::as_bool`: the boolean where the value is one,
/// else `None`.
#[verifier::external_body]
pub(crate) fn as_flag(v: &serde_json::Value) -> (r: Option<bool>)
    ensures
        r == flag_of(json_model(*v)),
{
    v.as_bool()
}

/// Calls `serde_json::Value::as_f64` and hands the float out as its bit
/// pattern. Every number has a reading, that of a float is the float itself,
/// and no other value has one.
#[verifier::external_body]
pub(crate) fn as_float_bits(v: &serde_json::Value) -> (r: Option<u64>)
    ensures
        r == json_as_float(json_model(*v)),
        r is Some <==> (json_model(*v) is Integer || json_model(*v) is Float),
        json_model(*v) matches Json::Float(bits) ==> r == Some(bits),
{
    v.as_f64().map(|x| x.to_bits())
}

/// The value `serde_json::Value::Null`.
#[verifier::external_body]
pub(crate) fn null() -> (v: serde_json::Value)
    ensures
        json_model(v) == Json::Null,
{
    serde_json::Value::Null
}

/// Calls `serde_json::Value::from` on a string slice, which gives the JSON
/// string with the same characters.
#[verifier::external_body]
pub(crate) fn text(s: &str) -> (v: serde_json::Value)
    ensures
        json_model(v) == Json::Text(s@),
{
    serde_json::Value::from(s)
}

/// Calls `serde_json::Value::from` on an `i32`, which gives the JSON number
/// that holds this integer.
#[verifier::external_body]
pub(crate) fn integer(n: i32) -> (v: serde_json::Value)
    ensures
        json_model(v) == Json::Integer(n as int),
{
    serde_json::Value::from(n)
}

/// The object without members, made by `serde_json::Map::new`.
#[verifier::external_body]
pub(crate) fn empty_object() -> (v: serde_json::Value)
    ensures
        json_model(v) == Json::Object(Map::empty()),
{
    serde_json::Value::Object(serde_json::Map::new())
}

/// Assigns through `serde_json::Value`'s index operator with a string key,
/// which on an object adds the member or replaces the one under that key. On
/// a value that is neither an object nor null the operator panics.
#[verifier::external_body]
pub(crate) fn set_member(v: &mut serde_json::Value, key: &str, member: serde_json::Value)
    requires
        json_model(*old(v)) is Object,
    ensures
        json_model(*final(v)) == with_member(json_model(*old(v)), key@, json_model(member)),
{
    v[key] = member;
}

/// Calls `serde_json::to_string`. The text is a function of the value's
/// contents; control characters inside strings are written as escapes and
/// nothing is written between the tokens, so it holds no line feed.
#[verifier::external_body]
pub(crate) fn to_text(v: &serde_json::Value) -> (r: String)
    ensures
        r@ == json_text(json_model(*v)),
        !r@.contains('\n'),
{
    serde_json::to_string(v).unwrap_or_default()
}

} // verus!
