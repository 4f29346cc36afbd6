use vstd::prelude::*;

verus! {

/// Mathematical model of a parsed JSON document. Numbers are split into
/// the non-negative integers that fit a `u64` (the only numbers whose
/// value the extractor reads) and all other numbers.
pub enum Json {
    Null,
    Bool(bool),
    UInt(u64),
    NumOther,
    Text(Seq<char>),
    Arr(Seq<Json>),
    Obj(Map<Seq<char>, Json>),
}

#[verifier::external_type_specification]
#[verifier::external_body]
pub struct ExValue(serde_json::Value);

/// The document that a `serde_json::Value` holds.
pub uninterp spec fn json_model(v: serde_json::Value) -> Json;

/// The document that `serde_json::from_slice::<Value>` yields for the given
/// bytes, or `None` when it rejects them. The result depends on the bytes
/// alone.
pub uninterp spec fn json_parse(bytes: Seq<u8>) -> Option<Json>;

/// Relies on serde_json::from_slice::<Value>: parses the bytes as one JSON
/// document or rejects them.
#[verifier::external_body]
pub(crate) fn parse_json(bytes: &[u8]) -> (r: Option<serde_json::Value>)
    ensures
        r is Some <==> json_parse(bytes@) is Some,
        r matches Some(v) ==> json_parse(bytes@) == Some(json_model(v)),
{
    serde_json::from_slice::<serde_json::Value>(bytes).ok()
}

/// Relies on serde_json::Value::is_object: true exactly for an object.
#[verifier::external_body]
pub(crate) fn json_is_object(v: &serde_json::Value) -> (r: bool)
    ensures
        r == (json_model(*v) is Obj),
{
    v.is_object()
}

/// Relies on serde_json::Value::is_null: true exactly for null.
#[verifier::external_body]
pub(crate) fn json_is_null(v: &serde_json::Value) -> (r: bool)
    ensures
        r == (json_model(*v) is Null),
{
    v.is_null()
}

/// Relies on serde_json::Value::get with a string index: on an object it
/// returns the member named by the key, if any; on anything else, `None`.
#[verifier::external_body]
pub(crate) fn json_get<'a>(v: &'a serde_json::Value, key: &str) -> (r: Option<
    &'a serde_json::Value,
>)
    ensures
        match json_model(*v) {
            Json::Obj(m) => {
                &&& r is Some <==> m.contains_key(key@)
                &&& (r matches Some(u) ==> json_model(*u) == m[key@])
            },
            _ => r is None,
        },
{
    v.get(key)
}

/// Relies on serde_json::Value::as_u64: the value of a number that is an
/// integer representable as u64; `None` for every other value.
#[verifier::external_body]
pub(crate) fn json_as_u64(v: &serde_json::Value) -> (r: Option<u64>)
    ensures
        r == match json_model(*v) {
            Json::UInt(n) => Some(n),
            _ => None::<u64>,
        },
{
    v.as_u64()
}

/// Relies on serde_json::Value::as_str: the content of a string value;
/// `None` for every other value.
#[verifier::external_body]
pub(crate) fn json_as_str<'a>(v: &'a serde_json::Value) -> (r: Option<&'a str>)
    ensures
        match json_model(*v) {
            Json::Text(t) => r matches Some(s) && s@ == t,
            _ => r is None,
        },
{
    v.as_str()
}

/// Relies on serde_json::Value::as_array: the elements of an array value;
/// `None` for every other value.
#[verifier::external_body]
pub(crate) fn json_as_array<'a>(v: &'a serde_json::Value) -> (r: Option<
    &'a Vec<serde_json::Value>,
>)
    ensures
        match json_model(*v) {
            Json::Arr(items) => {
                &&& r matches Some(a)
                &&& a@.len() == items.len()
                &&& forall|i: int| 0 <= i < items.len() ==> json_model(#[trigger] a@[i]) == items[i]
            },
            _ => r is None,
        },
{
    v.as_array()
}

/// Relies on serde_json::Value::is_number: true exactly for a number.
#[verifier::external_body]
pub(crate) fn json_is_number(v: &serde_json::Value) -> (r: bool)
    ensures
        r == (json_model(*v) is UInt || json_model(*v) is NumOther),
{
    v.is_number()
}

} // verus!
