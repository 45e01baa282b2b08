//! The parts of serde_json that manifest parsing relies on, with a model of
//! JSON values in plain mathematical terms.
use vstd::prelude::*;

verus! {

/// A JSON value as the manifest logic sees it. Numbers carry no payload: no
/// rule of a manifest reads one.
pub ghost enum JsonModel {
    Null,
    Bool(bool),
    Number,
    Str(Seq<char>),
    Array(Seq<JsonModel>),
    Object(Map<Seq<char>, JsonModel>),
}

#[verifier::external_type_specification]
#[verifier::external_body]
pub struct ExJsonValue(serde_json::Value);

#[verifier::external_type_specification]
#[verifier::external_body]
pub struct ExJsonError(serde_json::Error);

/// What a `serde_json::Value` holds.
pub uninterp spec fn json_model(v: serde_json::Value) -> JsonModel;

/// The JSON value that serde_json reads from `b`, if it accepts `b`: well-formed
/// UTF-8 JSON text, nested no deeper than serde_json's recursion limit.
pub uninterp spec fn json_of_bytes(b: Seq<u8>) -> Option<JsonModel>;

/// Relies on serde_json::from_slice, read as a `Value`: it fails exactly on the
/// inputs it does not accept, and otherwise yields the value it read.
#[verifier::external_body]
pub fn parse_json(b: &[u8]) -> (r: Result<serde_json::Value, serde_json::Error>)
    ensures
        r is Ok <==> json_of_bytes(b@) is Some,
        r is Ok ==> json_of_bytes(b@) == Some(json_model(r->Ok_0)),
{
    serde_json::from_slice::<serde_json::Value>(b)
}

/// Relies on serde_json::Value::as_str: `Some` exactly for a string value.
pub assume_specification[ serde_json::Value::as_str ](v: &serde_json::Value) -> (r: Option<&str>)
    ensures
        r is Some <==> json_model(*v) is Str,
        r is Some ==> json_model(*v) == JsonModel::Str(r->Some_0@),
;

/// Relies on serde_json::Value::is_null: true exactly for `null`.
pub assume_specification[ serde_json::Value::is_null ](v: &serde_json::Value) -> (r: bool)
    ensures
        r <==> json_model(*v) is Null,
;

/// Relies on serde_json::Value::as_array: `Some` exactly for an array, holding
/// its elements in order.
pub assume_specification[ serde_json::Value::as_array ](v: &serde_json::Value) -> (r: Option<
    &Vec<serde_json::Value>,
>)
    ensures
        r is Some <==> json_model(*v) is Array,
        r is Some ==> json_model(*v)->Array_0.len() == r->Some_0@.len(),
        r is Some ==> forall|i: int|
            0 <= i < r->Some_0@.len() ==> #[trigger] json_model(r->Some_0@[i])
                == json_model(*v)->Array_0[i],
;

/// Relies on serde_json::Value::as_object and serde_json::Map::iter: for an
/// object, its members as key/value pairs.
#[verifier::external_body]
pub fn object_members(v: &serde_json::Value) -> (r: Option<Vec<(String, serde_json::Value)>>)
    ensures
        r is Some <==> json_model(*v) is Object,
        r is Some ==> forall|i: int|
            0 <= i < r->Some_0@.len() ==> json_model(*v)->Object_0.contains_key(
                (#[trigger] r->Some_0@[i]).0@,
            ) && json_model(*v)->Object_0[r->Some_0@[i].0@] == json_model(r->Some_0@[i].1),
        r is Some ==> forall|k: Seq<char>|
            #[trigger] json_model(*v)->Object_0.contains_key(k) ==> exists|i: int|
                0 <= i < r->Some_0@.len() && (#[trigger] r->Some_0@[i]).0@ == k,
{
    v.as_object().map(|m| m.iter().map(|(k, x)| (k.clone(), x.clone())).collect())
}

} // verus!
