//! JSON values of `serde_json`, which the compiler carries through without
//! looking inside. Nothing in this file is proved: it states what is taken
//! on trust about `serde_json`.

use vstd::prelude::*;

verus! {

/// `serde_json::Value`: any JSON value. Opaque to the verifier.
#[verifier::external_type_specification]
#[verifier::external_body]
pub struct ExValue(serde_json::Value);

/// `serde_json::Map`: a JSON object. Opaque to the verifier.
#[verifier::external_type_specification]
#[verifier::external_body]
#[verifier::reject_recursive_types(K)]
#[verifier::reject_recursive_types(V)]
pub struct ExObject<K, V>(serde_json::Map<K, V>);

/// The JSON number that `serde_json::Number::from` makes of the unsigned
/// integer `n`, as a `serde_json::Value`.
pub uninterp spec fn json_integer(n: u32) -> serde_json::Value;

/// Calls `serde_json::Number::from(u32)` and wraps the outcome in
/// `serde_json::Value::Number`. Trusted: the outcome depends on `n` alone.
#[verifier::external_body]
pub(crate) fn integer_value(n: u32) -> (v: serde_json::Value)
    ensures
        v == json_integer(n),
{
    serde_json::Value::Number(serde_json::Number::from(n))
}

/// `Clone::clone` of `serde_json::Value`, a derived impl. Trusted: the copy
/// is the same JSON value.
pub assume_specification[ <serde_json::Value as Clone>::clone ](v: &serde_json::Value) -> (r:
    serde_json::Value)
    ensures
        r == *v,
;

} // verus!
