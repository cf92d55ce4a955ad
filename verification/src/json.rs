//! Outside JSON and protobuf value types that the models carry through.
use vstd::prelude::*;

verus! {

/// A JSON object of `serde_json`; carried as opaque metadata or data.
#[verifier::external_type_specification]
#[verifier::external_body]
#[verifier::reject_recursive_types(K)]
#[verifier::reject_recursive_types(V)]
pub struct ExJsonMap<K, V>(serde_json::Map<K, V>);

/// A JSON value of `serde_json`.
#[verifier::external_type_specification]
#[verifier::external_body]
pub struct ExJsonValue(serde_json::Value);

/// The protobuf `Struct` well-known type of `prost_types`.
#[verifier::external_type_specification]
#[verifier::external_body]
pub struct ExProtoStruct(prost_types::Struct);

/// The keys of a JSON object.
pub uninterp spec fn json_object_keys(m: serde_json::Map<String, serde_json::Value>) -> Set<Seq<char>>;

/// `serde_json::Map::new`: a JSON object with no entries.
#[verifier::external_body]
pub(crate) fn empty_json_object() -> (m: serde_json::Map<String, serde_json::Value>)
    ensures
        json_object_keys(m) == Set::<Seq<char>>::empty(),
{
    serde_json::Map::new()
}

/// `Clone` of a JSON object: the copy holds the same keys.
pub assume_specification[ <serde_json::Map<String, serde_json::Value> as Clone>::clone ](
    m: &serde_json::Map<String, serde_json::Value>,
) -> (r: serde_json::Map<String, serde_json::Value>)
    ensures
        json_object_keys(r) == json_object_keys(*m),
;

} // verus!
