//! JSON documents as the rest of the library sees them: serde_json values, read through a
//! mathematical model of their contents.
use vstd::prelude::*;

verus! {

/// serde_json::Value, carried as it is; what it holds is read through `json_contents`.
#[verifier::external_type_specification]
#[verifier::external_body]
pub struct ExJsonValue(serde_json::Value);

/// What a JSON value holds. Integers keep their value; other numbers are only known to be numbers.
pub enum JsonModel {
    Null,
    Bool(bool),
    Int(int),
    Float,
    Str(Seq<char>),
    Array(Seq<JsonModel>),
    Object(Map<Seq<char>, JsonModel>),
}

/// The contents of a serde_json value: its variant, and for an array or an object what its
/// elements or members hold in turn.
pub uninterp spec fn json_contents(v: serde_json::Value) -> JsonModel;

/// The document that serde_json reads from a text, or `None` where the text is not JSON.
pub uninterp spec fn json_parse(s: Seq<char>) -> Option<JsonModel>;

/// The member `key` of an object; `None` for a missing key or a value that is not an object.
pub open spec fn member(m: JsonModel, key: Seq<char>) -> Option<JsonModel> {
    match m {
        JsonModel::Object(fields) => if fields.contains_key(key) {
            Some(fields[key])
        } else {
            None
        },
        _ => None,
    }
}

/// Relies on serde_json::from_str: the document read from the text, if it is JSON.
#[verifier::external_body]
pub(crate) fn parse_json(s: &str) -> (r: Option<serde_json::Value>)
    ensures
        r matches Some(v) ==> json_parse(s@) == Some(json_contents(v)),
        r is None ==> json_parse(s@) is None,
{
    serde_json::from_str::<serde_json::Value>(s).ok()
}

/// Relies on serde_json::Value::get with a string key: the member of an object.
#[verifier::external_body]
pub(crate) fn get_member<'a>(v: &'a serde_json::Value, key: &str) -> (r: Option<&'a serde_json::Value>)
    ensures
        r matches Some(x) ==> member(json_contents(*v), key@) == Some(json_contents(*x)),
        r is None ==> member(json_contents(*v), key@) is None,
{
    v.get(key)
}

/// Relies on serde_json::Value::as_str: the text of a string value.
#[verifier::external_body]
pub(crate) fn as_text(v: &serde_json::Value) -> (r: Option<&str>)
    ensures
        r matches Some(s) ==> json_contents(*v) == JsonModel::Str(s@),
        r is None ==> !(json_contents(*v) is Str),
{
    v.as_str()
}

/// Relies on serde_json::Value::as_bool: the value of a boolean.
#[verifier::external_body]
pub(crate) fn as_boolean(v: &serde_json::Value) -> (r: Option<bool>)
    ensures
        r matches Some(b) ==> json_contents(*v) == JsonModel::Bool(b),
        r is None ==> !(json_contents(*v) is Bool),
{
    v.as_bool()
}

/// Relies on serde_json::Value::as_u64: an integer that is not negative.
#[verifier::external_body]
pub(crate) fn as_unsigned(v: &serde_json::Value) -> (r: Option<u64>)
    ensures
        r matches Some(n) ==> json_contents(*v) == JsonModel::Int(n as int),
        r is None ==> !(json_contents(*v) matches JsonModel::Int(i) && i >= 0),
{
    v.as_u64()
}

/// Relies on serde_json::Value::as_array: the elements of an array, in order.
#[verifier::external_body]
pub(crate) fn as_elements(v: &serde_json::Value) -> (r: Option<&Vec<serde_json::Value>>)
    ensures
        r matches Some(xs) ==> json_contents(*v) == JsonModel::Array(
            xs@.map_values(|x: serde_json::Value| json_contents(x)),
        ),
        r is None ==> !(json_contents(*v) is Array),
{
    v.as_array()
}

/// Relies on serde_json::Value::is_object.
#[verifier::external_body]
pub(crate) fn is_object(v: &serde_json::Value) -> (r: bool)
    ensures
        r == (json_contents(*v) is Object),
{
    v.is_object()
}

/// Relies on serde_json::Value::is_null.
#[verifier::external_body]
pub(crate) fn is_null(v: &serde_json::Value) -> (r: bool)
    ensures
        r == (json_contents(*v) is Null),
{
    v.is_null()
}

/// Relies on serde_json::Value's `Clone`: the copy holds what the original holds.
pub assume_specification[ <serde_json::Value as Clone>::clone ](v: &serde_json::Value) -> (r: serde_json::Value)
    ensures
        json_contents(r) == json_contents(*v),
;

} // verus!
