//! Trusted interface to serde_json's map type.
//!
//! A message's custom payload is a caller-supplied map from string keys to
//! arbitrary JSON values. The map and its values are opaque here: the builder
//! only copies the map and, at serialization time, splices serde_json's
//! rendering of it into the document, under the name [`json_of_map`].

use vstd::prelude::*;

verus! {

#[verifier::external_type_specification]
#[verifier::external_body]
pub struct ExJsonValue(serde_json::Value);

#[verifier::external_type_specification]
#[verifier::external_body]
#[verifier::reject_recursive_types(K)]
#[verifier::reject_recursive_types(V)]
pub struct ExJsonMap<K, V>(serde_json::Map<K, V>);

/// The text serde_json renders for a payload map: a JSON object with one
/// member per entry. It is a function of the map's entries alone.
pub uninterp spec fn json_of_map(m: serde_json::Map<String, serde_json::Value>) -> Seq<char>;

/// Relies on `Clone` for `serde_json::Map`: the copy equals the original.
#[verifier::external_body]
pub(crate) fn clone_json_map(m: &serde_json::Map<String, serde_json::Value>) -> (r: serde_json::Map<
    String,
    serde_json::Value,
>)
    ensures
        r == *m,
{
    m.clone()
}

/// Relies on `serde_json::to_string`: rendering a string-keyed map of JSON
/// values cannot fail, and the text depends on the map's entries alone.
#[verifier::external_body]
pub(crate) fn map_to_json(m: &serde_json::Map<String, serde_json::Value>) -> (r: String)
    ensures
        r@ == json_of_map(*m),
{
    serde_json::to_string(m).unwrap_or_default()
}

} // verus!
