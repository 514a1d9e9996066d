//! JSON documents that the library carries through without reading them.
use vstd::prelude::*;

verus! {

/// `serde_json::Value`, held opaquely: the library stores and hands back
/// such values but never looks inside one.
#[verifier::external_type_specification]
#[verifier::external_body]
pub struct ExJsonValue(serde_json::Value);

} // verus!
