//! The JSON types that pass through the library untouched.
//!
//! A tunnel configuration holds fields this library does not interpret. They
//! arrive as `serde_json` values, are carried along unchanged, and leave with
//! the next write. Nothing here looks inside them.

use vstd::prelude::*;

verus! {

/// `serde_json::Value`, an arbitrary JSON document. Declared opaque: the
/// verifier knows only that two such values are equal or not.
#[verifier::external_type_specification]
#[verifier::external_body]
pub struct ExJsonValue(serde_json::Value);

/// `serde_json::Map`, the object form of a JSON document. Declared opaque, as
/// `serde_json::Value` is.
#[verifier::external_type_specification]
#[verifier::external_body]
#[verifier::reject_recursive_types(K)]
#[verifier::reject_recursive_types(V)]
pub struct ExJsonObject<K, V>(serde_json::Map<K, V>);

} // verus!
