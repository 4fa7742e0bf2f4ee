//! JSON payload support through `serde_json`.
//!
//! A `serde_json::Value` is opaque to the verifier: these wrappers carry
//! values through, and the one fact the contracts use is whether a byte
//! sequence parses as JSON at all.

use vstd::prelude::*;

verus! {

#[verifier::external_type_specification]
#[verifier::external_body]
pub struct ExValue(serde_json::Value);

#[verifier::external_type_specification]
#[verifier::external_body]
#[verifier::reject_recursive_types(K)]
#[verifier::reject_recursive_types(V)]
pub struct ExJsonMap<K, V>(serde_json::Map<K, V>);

/// Whether `serde_json` parses the byte sequence as a JSON value; the
/// outcome depends on the bytes alone.
pub uninterp spec fn json_wf(b: Seq<u8>) -> bool;

/// Relies on `serde_json::from_slice::<Value>`: succeeds exactly on bytes
/// that parse as JSON.
#[verifier::external_body]
pub(crate) fn json_from_slice(b: &[u8]) -> (r: Option<serde_json::Value>)
    ensures
        r is Some <==> json_wf(b@),
{
    serde_json::from_slice(b).ok()
}

/// Relies on `serde_json::to_vec`: serializing a `Value` cannot fail —
/// its keys are strings and its numbers finite.  Nothing more is claimed:
/// the parser enforces a recursion limit the serializer does not, so the
/// bytes of a deeply nested value need not parse again.
#[verifier::external_body]
pub(crate) fn json_to_vec(v: &serde_json::Value) -> (r: Option<Vec<u8>>)
    ensures
        r is Some,
{
    serde_json::to_vec(v).ok()
}

/// Relies on `serde_json::Value::String`: wraps a string as a JSON value.
#[verifier::external_body]
pub(crate) fn json_string(s: String) -> serde_json::Value {
    serde_json::Value::String(s)
}

/// Relies on `serde_json::Value`'s `From<i64>`: a JSON number.
#[verifier::external_body]
pub(crate) fn json_i64(n: i64) -> serde_json::Value {
    serde_json::Value::from(n)
}

/// Relies on `serde_json::Value`'s `From<u64>`: a JSON number.
#[verifier::external_body]
pub(crate) fn json_u64(n: u64) -> serde_json::Value {
    serde_json::Value::from(n)
}

/// Relies on `serde_json::Map::new`: an empty JSON object map.
#[verifier::external_body]
pub(crate) fn json_map_new() -> serde_json::Map<String, serde_json::Value> {
    serde_json::Map::new()
}

/// Relies on `serde_json::Map::insert`: binds the key to the value.
#[verifier::external_body]
pub(crate) fn json_map_insert(
    m: &mut serde_json::Map<String, serde_json::Value>,
    k: String,
    v: serde_json::Value,
) {
    m.insert(k, v);
}

/// Relies on `serde_json::Value::Object`: wraps a map as a JSON object.
#[verifier::external_body]
pub(crate) fn json_object(m: serde_json::Map<String, serde_json::Value>) -> serde_json::Value {
    serde_json::Value::Object(m)
}

} // verus!
