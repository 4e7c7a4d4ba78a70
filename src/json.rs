//! JSON text and values, read through `serde_json`.
//!
//! A parsed value is opaque here; what the library reads of it goes through
//! the accessors below, each named by what it returns.

use vstd::prelude::*;

verus! {

/// A parsed JSON value (`serde_json::Value`), opaque here.
#[verifier::external_type_specification]
#[verifier::external_body]
pub struct ExJsonValue(serde_json::Value);

/// The JSON parser's error (`serde_json::Error`), opaque here.
#[verifier::external_type_specification]
#[verifier::external_body]
pub struct ExJsonError(serde_json::Error);

/// The value that `serde_json::from_str` reads from a text, or `None` where
/// it reports an error.
pub uninterp spec fn json_parse(s: Seq<char>) -> Option<serde_json::Value>;

/// The member of an object that `Value::get` finds under a key; `None` for
/// a missing key or a value that is not an object.
pub uninterp spec fn json_field(v: serde_json::Value, key: Seq<char>) -> Option<serde_json::Value>;

/// The text of a string value, as `Value::as_str` gives it.
pub uninterp spec fn json_str(v: serde_json::Value) -> Option<Seq<char>>;

/// The items of an array value, as `Value::as_array` gives them.
pub uninterp spec fn json_items(v: serde_json::Value) -> Option<Seq<serde_json::Value>>;

/// A boolean value, as `Value::as_bool` gives it.
pub uninterp spec fn json_bool(v: serde_json::Value) -> Option<bool>;

/// An integer value that fits in `i64`, as `Value::as_i64` gives it.
pub uninterp spec fn json_i64(v: serde_json::Value) -> Option<i64>;

/// Whether a value is null, as `Value::is_null` tells.
pub uninterp spec fn json_null(v: serde_json::Value) -> bool;

/// Relies on `serde_json::from_str::<Value>`: the outcome depends on the
/// text alone.
#[verifier::external_body]
pub(crate) fn parse_json(s: &str) -> (r: Result<serde_json::Value, serde_json::Error>)
    ensures
        r is Ok <==> json_parse(s@) is Some,
        r matches Ok(v) ==> json_parse(s@) == Some(v),
{
    serde_json::from_str::<serde_json::Value>(s)
}

/// Relies on `Value::get` with a string key: the member of an object.
#[verifier::external_body]
pub(crate) fn field<'a>(v: &'a serde_json::Value, key: &str) -> (r: Option<&'a serde_json::Value>)
    ensures
        r is Some <==> json_field(*v, key@) is Some,
        r matches Some(f) ==> json_field(*v, key@) == Some(*f),
{
    v.get(key)
}

/// Relies on `Value::as_str`: the text of a string value, `None` for any
/// other value.
pub assume_specification<'a>[ serde_json::Value::as_str ](v: &'a serde_json::Value) -> (r: Option<&'a str>)
    ensures
        r is Some <==> json_str(*v) is Some,
        r matches Some(s) ==> json_str(*v) == Some(s@),
;

/// Relies on `Value::as_array`: the items of an array value, `None` for any
/// other value.
pub assume_specification<'a>[ serde_json::Value::as_array ](v: &'a serde_json::Value) -> (r: Option<&'a Vec<serde_json::Value>>)
    ensures
        r is Some <==> json_items(*v) is Some,
        r matches Some(items) ==> json_items(*v) == Some(items@),
;

/// Relies on `Value::as_bool`: a boolean value, `None` for any other value.
pub assume_specification[ serde_json::Value::as_bool ](v: &serde_json::Value) -> (r: Option<bool>)
    ensures
        r == json_bool(*v),
;

/// Relies on `Value::as_i64`: an integer that fits in `i64`, `None` for any
/// other value.
pub assume_specification[ serde_json::Value::as_i64 ](v: &serde_json::Value) -> (r: Option<i64>)
    ensures
        r == json_i64(*v),
;

/// Relies on the derived `Clone` of `Value`: a copy equal to the original.
pub assume_specification[ <serde_json::Value as Clone>::clone ](v: &serde_json::Value) -> (r: serde_json::Value)
    ensures
        r == *v,
;

/// Relies on `Value::is_null`: whether the value is null.
pub assume_specification[ serde_json::Value::is_null ](v: &serde_json::Value) -> (r: bool)
    ensures
        r == json_null(*v),
;

} // verus!
