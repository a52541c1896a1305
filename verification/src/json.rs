//! A mathematical model of parsed JSON values, and the trusted boundary to
//! serde_json.
//!
//! The decoder never reads a `serde_json::Value` directly: every access goes
//! through a wrapper here whose contract speaks of `json_model`, the model of
//! the value. Everything past these wrappers is verified against that model.

use vstd::prelude::*;

verus! {

/// Model of one parsed JSON value, as far as the decoder reads it.
pub enum JsonModel {
    /// A JSON string.
    Str(Seq<char>),
    /// A JSON number: its value as a `u64` where it is one, and its decimal
    /// rendering.
    Num { uint: Option<u64>, text: Seq<char> },
    /// A JSON array.
    Arr(Seq<JsonModel>),
    /// A JSON object: its fields, keyed by name.
    Obj(Map<Seq<char>, JsonModel>),
    /// A JSON boolean or null.
    Other,
}

#[verifier::external_type_specification]
#[verifier::external_body]
pub struct ExValue(serde_json::Value);

/// The model of a parsed `serde_json::Value`.
pub uninterp spec fn json_model(v: serde_json::Value) -> JsonModel;

/// What parsing a line as JSON yields: `None` where the line is not valid
/// JSON. The result is a function of the text alone.
pub uninterp spec fn json_of(s: Seq<char>) -> Option<JsonModel>;

/// Relies on `serde_json::from_str::<Value>`: parsing succeeds exactly on
/// valid JSON text, and the value parsed is a function of the text alone.
#[verifier::external_body]
pub(crate) fn parse_json(line: &str) -> (r: Option<serde_json::Value>)
    ensures
        r is Some <==> json_of(line@) is Some,
        r matches Some(v) ==> json_of(line@) == Some(json_model(v)),
{
    serde_json::from_str::<serde_json::Value>(line).ok()
}

/// Relies on `serde_json::Value::is_object`.
#[verifier::external_body]
pub(crate) fn val_is_object(v: &serde_json::Value) -> (r: bool)
    ensures
        r == (json_model(*v) is Obj),
{
    v.is_object()
}

/// Relies on `serde_json::Value::get` with a string index: on an object it
/// looks the key up, returning `None` exactly where the key is absent.
#[verifier::external_body]
pub(crate) fn obj_get<'a>(v: &'a serde_json::Value, key: &str) -> (r: Option<
    &'a serde_json::Value,
>)
    requires
        json_model(*v) is Obj,
    ensures
        match r {
            Some(f) => json_model(*v)->Obj_0.contains_key(key@) && json_model(*f) == json_model(
                *v,
            )->Obj_0[key@],
            None => !json_model(*v)->Obj_0.contains_key(key@),
        },
{
    v.get(key)
}

/// Relies on `serde_json::Value::as_str`: `Some` exactly on a JSON string.
#[verifier::external_body]
pub(crate) fn val_as_str<'a>(v: &'a serde_json::Value) -> (r: Option<&'a str>)
    ensures
        match r {
            Some(s) => json_model(*v) == JsonModel::Str(s@),
            None => !(json_model(*v) is Str),
        },
{
    v.as_str()
}

/// Relies on `serde_json::Value::as_u64`: `Some` exactly on a JSON number
/// that is a non-negative integer fitting in a `u64`.
#[verifier::external_body]
pub(crate) fn val_as_u64(v: &serde_json::Value) -> (r: Option<u64>)
    ensures
        match r {
            Some(n) => json_model(*v) matches JsonModel::Num { uint, .. } && uint == Some(n),
            None => !(json_model(*v) matches JsonModel::Num { uint: Some(_), .. }),
        },
{
    v.as_u64()
}

/// Relies on serde_json's rendering of a JSON number (`Number`'s `to_string`):
/// the decimal text of the number, a function of the number alone.
#[verifier::external_body]
pub(crate) fn val_num_text(v: &serde_json::Value) -> (r: Option<String>)
    ensures
        match r {
            Some(t) => json_model(*v) matches JsonModel::Num { text, .. } && text == t@,
            None => !(json_model(*v) is Num),
        },
{
    match v {
        serde_json::Value::Number(n) => Some(n.to_string()),
        _ => None,
    }
}

/// Relies on `serde_json::Value::as_array`: `Some` exactly on a JSON array,
/// handing its elements out in order.
#[verifier::external_body]
pub(crate) fn val_as_array<'a>(v: &'a serde_json::Value) -> (r: Option<
    &'a Vec<serde_json::Value>,
>)
    ensures
        match r {
            Some(a) => json_model(*v) matches JsonModel::Arr(s) && s.len() == a@.len() && forall|
                i: int,
            | 0 <= i < s.len() ==> s[i] == json_model(#[trigger] a@[i]),
            None => !(json_model(*v) is Arr),
        },
{
    v.as_array()
}

/// Relies on `str`'s `PartialEq`: equality of the character sequences.
#[verifier::external_body]
pub(crate) fn str_eq(a: &str, b: &str) -> (r: bool)
    ensures
        r == (a@ == b@),
{
    a == b
}

} // verus!
