//! Field lookup: how one named field of a JSON object resolves to a typed
//! value, an "absent" state, or a structured failure.
//!
//! Each rule is stated once as a spec function over the object model, and the
//! executable lookup is verified to match it exactly.

use vstd::prelude::*;
use crate::events::DecodeError;
use crate::events::FieldKind;
use crate::events::SpecDecodeError;
use crate::json::JsonModel;
use crate::json::json_model;
use crate::json::obj_get;
use crate::json::val_as_array;
use crate::json::val_as_str;
use crate::json::val_as_u64;
use crate::json::val_num_text;
use crate::time::Timestamp;
use crate::time::timestamp_of;
use crate::time::parse_timestamp;

verus! {

/// The fields of an object-model value.
pub open spec fn obj_fields(v: serde_json::Value) -> Map<Seq<char>, JsonModel> {
    json_model(v)->Obj_0
}

/// The field under `name`, or `None` where the object has no such field.
pub open spec fn jfield(m: Map<Seq<char>, JsonModel>, name: Seq<char>) -> Option<JsonModel> {
    if m.contains_key(name) {
        Some(m[name])
    } else {
        None
    }
}

/// A required text field.
pub open spec fn spec_req_text(m: Map<Seq<char>, JsonModel>, name: Seq<char>) -> Result<
    Seq<char>,
    SpecDecodeError,
> {
    match jfield(m, name) {
        None => Err(SpecDecodeError::MissingField(name)),
        Some(JsonModel::Str(s)) => Ok(s),
        Some(_) => Err(SpecDecodeError::TypeMismatch(name, FieldKind::Text)),
    }
}

/// An optional text field: absence is `Ok(None)`, never a failure.
pub open spec fn spec_opt_text(m: Map<Seq<char>, JsonModel>, name: Seq<char>) -> Result<
    Option<Seq<char>>,
    SpecDecodeError,
> {
    match jfield(m, name) {
        None => Ok(None),
        Some(JsonModel::Str(s)) => Ok(Some(s)),
        Some(_) => Err(SpecDecodeError::TypeMismatch(name, FieldKind::Text)),
    }
}

/// A required non-negative integer field.
pub open spec fn spec_req_u64(m: Map<Seq<char>, JsonModel>, name: Seq<char>) -> Result<
    u64,
    SpecDecodeError,
> {
    match jfield(m, name) {
        None => Err(SpecDecodeError::MissingField(name)),
        Some(JsonModel::Num { uint: Some(n), .. }) => Ok(n),
        Some(_) => Err(SpecDecodeError::TypeMismatch(name, FieldKind::Unsigned)),
    }
}

/// An optional non-negative integer field.
pub open spec fn spec_opt_u64(m: Map<Seq<char>, JsonModel>, name: Seq<char>) -> Result<
    Option<u64>,
    SpecDecodeError,
> {
    match jfield(m, name) {
        None => Ok(None),
        Some(JsonModel::Num { uint: Some(n), .. }) => Ok(Some(n)),
        Some(_) => Err(SpecDecodeError::TypeMismatch(name, FieldKind::Unsigned)),
    }
}

/// A required rank field: an integer in `0 ..= 255`.
pub open spec fn spec_req_u8(m: Map<Seq<char>, JsonModel>, name: Seq<char>) -> Result<
    u8,
    SpecDecodeError,
> {
    match spec_req_u64(m, name) {
        Ok(n) => if n <= 255 {
            Ok(n as u8)
        } else {
            Err(SpecDecodeError::TypeMismatch(name, FieldKind::Unsigned))
        },
        Err(e) => Err(e),
    }
}

/// A required integer field in `0 ..= 65535`.
pub open spec fn spec_req_u16(m: Map<Seq<char>, JsonModel>, name: Seq<char>) -> Result<
    u16,
    SpecDecodeError,
> {
    match spec_req_u64(m, name) {
        Ok(n) => if n <= 65535 {
            Ok(n as u16)
        } else {
            Err(SpecDecodeError::TypeMismatch(name, FieldKind::Unsigned))
        },
        Err(e) => Err(e),
    }
}

/// A required numeric field taken as its decimal text, fractional values
/// included.
pub open spec fn spec_req_num_text(m: Map<Seq<char>, JsonModel>, name: Seq<char>) -> Result<
    Seq<char>,
    SpecDecodeError,
> {
    match jfield(m, name) {
        None => Err(SpecDecodeError::MissingField(name)),
        Some(JsonModel::Num { text, .. }) => Ok(text),
        Some(_) => Err(SpecDecodeError::TypeMismatch(name, FieldKind::Number)),
    }
}

/// The text of an array element known to be a string.
pub open spec fn text_of(jm: JsonModel) -> Seq<char> {
    match jm {
        JsonModel::Str(t) => t,
        _ => Seq::empty(),
    }
}

/// A required list-of-text field.
pub open spec fn spec_req_text_list(m: Map<Seq<char>, JsonModel>, name: Seq<char>) -> Result<
    Seq<Seq<char>>,
    SpecDecodeError,
> {
    match jfield(m, name) {
        None => Err(SpecDecodeError::MissingField(name)),
        Some(JsonModel::Arr(s)) => if forall|i: int| 0 <= i < s.len() ==> (#[trigger] s[i]) is Str {
            Ok(Seq::new(s.len(), |i: int| text_of(s[i])))
        } else {
            Err(SpecDecodeError::TypeMismatch(name, FieldKind::TextList))
        },
        Some(_) => Err(SpecDecodeError::TypeMismatch(name, FieldKind::TextList)),
    }
}

/// A required text field that may appear under a second spelling: the
/// canonical `name` is tried first, then `alias`. A missing field is reported
/// under the canonical name.
pub open spec fn spec_req_text_alias(
    m: Map<Seq<char>, JsonModel>,
    name: Seq<char>,
    alias: Seq<char>,
) -> Result<Seq<char>, SpecDecodeError> {
    if m.contains_key(name) {
        spec_req_text(m, name)
    } else if m.contains_key(alias) {
        match m[alias] {
            JsonModel::Str(s) => Ok(s),
            _ => Err(SpecDecodeError::TypeMismatch(alias, FieldKind::Text)),
        }
    } else {
        Err(SpecDecodeError::MissingField(name))
    }
}

/// The base timestamp: a required text field holding a well-formed RFC 3339
/// date-time. Its absence or unparsable form is fatal for the whole record,
/// whatever the variant.
pub open spec fn spec_timestamp_field(m: Map<Seq<char>, JsonModel>) -> Result<
    Timestamp,
    SpecDecodeError,
> {
    match jfield(m, "timestamp"@) {
        None => Err(SpecDecodeError::MissingField("timestamp"@)),
        Some(JsonModel::Str(s)) => match timestamp_of(s) {
            Some(t) => Ok(t),
            None => Err(SpecDecodeError::TypeMismatch("timestamp"@, FieldKind::DateTime)),
        },
        Some(_) => Err(SpecDecodeError::TypeMismatch("timestamp"@, FieldKind::DateTime)),
    }
}

/// The view of a text result.
pub open spec fn res_text_view(r: Result<String, DecodeError>) -> Result<
    Seq<char>,
    SpecDecodeError,
> {
    match r {
        Ok(s) => Ok(s@),
        Err(e) => Err(e@),
    }
}

/// The view of an optional-text result.
pub open spec fn res_opt_text_view(r: Result<Option<String>, DecodeError>) -> Result<
    Option<Seq<char>>,
    SpecDecodeError,
> {
    match r {
        Ok(Some(s)) => Ok(Some(s@)),
        Ok(None) => Ok(None),
        Err(e) => Err(e@),
    }
}

/// The view of a result whose success value needs no translation.
pub open spec fn res_plain_view<T>(r: Result<T, DecodeError>) -> Result<T, SpecDecodeError> {
    match r {
        Ok(t) => Ok(t),
        Err(e) => Err(e@),
    }
}

/// The view of a list-of-text result.
pub open spec fn res_list_view(r: Result<Vec<String>, DecodeError>) -> Result<
    Seq<Seq<char>>,
    SpecDecodeError,
> {
    match r {
        Ok(v) => Ok(v.deep_view()),
        Err(e) => Err(e@),
    }
}

/// Looks a required text field up.
pub(crate) fn req_text(v: &serde_json::Value, name: &str) -> (r: Result<String, DecodeError>)
    requires
        json_model(*v) is Obj,
    ensures
        res_text_view(r) == spec_req_text(obj_fields(*v), name@),
{
    match obj_get(v, name) {
        Some(f) => match val_as_str(f) {
            Some(s) => Ok(s.to_owned()),
            None => Err(DecodeError::TypeMismatch(name.to_owned(), FieldKind::Text)),
        },
        None => Err(DecodeError::MissingField(name.to_owned())),
    }
}

/// Looks an optional text field up; absence is `Ok(None)`.
pub(crate) fn opt_text(v: &serde_json::Value, name: &str) -> (r: Result<
    Option<String>,
    DecodeError,
>)
    requires
        json_model(*v) is Obj,
    ensures
        res_opt_text_view(r) == spec_opt_text(obj_fields(*v), name@),
{
    match obj_get(v, name) {
        Some(f) => match val_as_str(f) {
            Some(s) => Ok(Some(s.to_owned())),
            None => Err(DecodeError::TypeMismatch(name.to_owned(), FieldKind::Text)),
        },
        None => Ok(None),
    }
}

/// Looks a required non-negative integer field up.
pub(crate) fn req_u64(v: &serde_json::Value, name: &str) -> (r: Result<u64, DecodeError>)
    requires
        json_model(*v) is Obj,
    ensures
        res_plain_view(r) == spec_req_u64(obj_fields(*v), name@),
{
    match obj_get(v, name) {
        Some(f) => match val_as_u64(f) {
            Some(n) => Ok(n),
            None => Err(DecodeError::TypeMismatch(name.to_owned(), FieldKind::Unsigned)),
        },
        None => Err(DecodeError::MissingField(name.to_owned())),
    }
}

/// Looks an optional non-negative integer field up; absence is `Ok(None)`.
pub(crate) fn opt_u64(v: &serde_json::Value, name: &str) -> (r: Result<Option<u64>, DecodeError>)
    requires
        json_model(*v) is Obj,
    ensures
        res_plain_view(r) == spec_opt_u64(obj_fields(*v), name@),
{
    match obj_get(v, name) {
        Some(f) => match val_as_u64(f) {
            Some(n) => Ok(Some(n)),
            None => Err(DecodeError::TypeMismatch(name.to_owned(), FieldKind::Unsigned)),
        },
        None => Ok(None),
    }
}

/// Looks a required rank field up (an integer in `0 ..= 255`).
pub(crate) fn req_u8(v: &serde_json::Value, name: &str) -> (r: Result<u8, DecodeError>)
    requires
        json_model(*v) is Obj,
    ensures
        res_plain_view(r) == spec_req_u8(obj_fields(*v), name@),
{
    match req_u64(v, name) {
        Ok(n) => if n <= 255 {
            Ok(n as u8)
        } else {
            Err(DecodeError::TypeMismatch(name.to_owned(), FieldKind::Unsigned))
        },
        Err(e) => Err(e),
    }
}

/// Looks a required integer field up, bounded to `0 ..= 65535`.
pub(crate) fn req_u16(v: &serde_json::Value, name: &str) -> (r: Result<u16, DecodeError>)
    requires
        json_model(*v) is Obj,
    ensures
        res_plain_view(r) == spec_req_u16(obj_fields(*v), name@),
{
    match req_u64(v, name) {
        Ok(n) => if n <= 65535 {
            Ok(n as u16)
        } else {
            Err(DecodeError::TypeMismatch(name.to_owned(), FieldKind::Unsigned))
        },
        Err(e) => Err(e),
    }
}

/// Looks a required numeric field up as its decimal text.
pub(crate) fn req_num_text(v: &serde_json::Value, name: &str) -> (r: Result<String, DecodeError>)
    requires
        json_model(*v) is Obj,
    ensures
        res_text_view(r) == spec_req_num_text(obj_fields(*v), name@),
{
    match obj_get(v, name) {
        Some(f) => match val_num_text(f) {
            Some(t) => Ok(t),
            None => Err(DecodeError::TypeMismatch(name.to_owned(), FieldKind::Number)),
        },
        None => Err(DecodeError::MissingField(name.to_owned())),
    }
}

/// Looks a required list-of-text field up.
#[verifier::loop_isolation(false)]
pub(crate) fn req_text_list(v: &serde_json::Value, name: &str) -> (r: Result<
    Vec<String>,
    DecodeError,
>)
    requires
        json_model(*v) is Obj,
    ensures
        res_list_view(r) == spec_req_text_list(obj_fields(*v), name@),
{
    let f = match obj_get(v, name) {
        Some(f) => f,
        None => {
            return Err(DecodeError::MissingField(name.to_owned()));
        },
    };
    let arr = match val_as_array(f) {
        Some(a) => a,
        None => {
            return Err(DecodeError::TypeMismatch(name.to_owned(), FieldKind::TextList));
        },
    };
    let ghost s: Seq<JsonModel> = json_model(*f)->Arr_0;
    proof {
        assert(jfield(obj_fields(*v), name@) == Some(JsonModel::Arr(s)));
        assert(s.len() == arr@.len());
    }
    let mut out: Vec<String> = Vec::new();
    let mut i: usize = 0;
    while i < arr.len()
        invariant
            i <= arr.len(),
            s.len() == arr@.len(),
            forall|j: int| 0 <= j < s.len() ==> s[j] == json_model(#[trigger] arr@[j]),
            forall|j: int| 0 <= j < i ==> (#[trigger] s[j]) is Str,
            out.deep_view() == Seq::new(i as nat, |j: int| text_of(s[j])),
        decreases arr.len() - i,
    {
        match val_as_str(&arr[i]) {
            Some(t) => {
                let ghost pre = out@;
                let ghost predeep = out.deep_view();
                out.push(t.to_owned());
                proof {
                    assert forall|k: int| 0 <= k <= i as int implies (#[trigger] out.deep_view()[
                        k
                    ]) == text_of(s[k]) by {
                        if k < i as int {
                            assert(out@[k] == pre[k]);
                            assert(predeep[k] == text_of(s[k]));
                            assert(predeep[k] == pre[k]@);
                        }
                    };
                    assert(out.deep_view() =~= Seq::new((i + 1) as nat, |j: int| text_of(s[j])));
                }
            },
            None => {
                return Err(DecodeError::TypeMismatch(name.to_owned(), FieldKind::TextList));
            },
        }
        i = i + 1;
    }
    proof {
        assert(out.deep_view() =~= Seq::new(s.len(), |j: int| text_of(s[j])));
    }
    Ok(out)
}

/// Looks a required text field up under its canonical name, then under its
/// alias.
pub(crate) fn req_text_alias(v: &serde_json::Value, name: &str, alias: &str) -> (r: Result<
    String,
    DecodeError,
>)
    requires
        json_model(*v) is Obj,
    ensures
        res_text_view(r) == spec_req_text_alias(obj_fields(*v), name@, alias@),
{
    match obj_get(v, name) {
        Some(f) => match val_as_str(f) {
            Some(s) => Ok(s.to_owned()),
            None => Err(DecodeError::TypeMismatch(name.to_owned(), FieldKind::Text)),
        },
        None => match obj_get(v, alias) {
            Some(f) => match val_as_str(f) {
                Some(s) => Ok(s.to_owned()),
                None => Err(DecodeError::TypeMismatch(alias.to_owned(), FieldKind::Text)),
            },
            None => Err(DecodeError::MissingField(name.to_owned())),
        },
    }
}

/// Extracts the base timestamp of a record.
pub(crate) fn timestamp_field(v: &serde_json::Value) -> (r: Result<Timestamp, DecodeError>)
    requires
        json_model(*v) is Obj,
    ensures
        res_plain_view(r) == spec_timestamp_field(obj_fields(*v)),
{
    match obj_get(v, "timestamp") {
        Some(f) => match val_as_str(f) {
            Some(s) => match parse_timestamp(s) {
                Some(t) => Ok(t),
                None => Err(
                    DecodeError::TypeMismatch("timestamp".to_owned(), FieldKind::DateTime),
                ),
            },
            None => Err(DecodeError::TypeMismatch("timestamp".to_owned(), FieldKind::DateTime)),
        },
        None => Err(DecodeError::MissingField("timestamp".to_owned())),
    }
}

} // verus!

