//! JSON values, as the `serde_json` crate encodes and decodes them.

use vstd::prelude::*;

verus! {

/// `serde_json::Value`: any JSON value.
#[verifier::external_type_specification]
#[verifier::external_body]
pub struct ExValue(serde_json::Value);

/// `serde_json::Map`: the members of a JSON object.
#[verifier::external_type_specification]
#[verifier::external_body]
#[verifier::reject_recursive_types(K)]
#[verifier::reject_recursive_types(V)]
pub struct ExMap<K, V>(serde_json::Map<K, V>);

/// The text that `serde_json::to_string` gives for the object with the
/// given members; `None` where it fails.
pub uninterp spec fn encoded(object: serde_json::Map<String, serde_json::Value>) -> Option<Seq<char>>;

/// The value that `serde_json::from_str` reads from a text; `None` where it
/// fails.
pub uninterp spec fn decoded(text: Seq<char>) -> Option<serde_json::Value>;

/// The members that `serde_json::Value::as_object` finds in a value; `None`
/// where the value is not an object.
pub uninterp spec fn object_of(value: serde_json::Value) -> Option<serde_json::Map<String, serde_json::Value>>;

/// `serde_json::to_string` on the object with the given members. Its result
/// depends on the members alone: the text is `encoded` of them. Where it
/// fails, what comes back is the failure as `std::fmt::Display` words it, of
/// which nothing is claimed.
#[verifier::external_body]
pub(crate) fn encode_object(object: &serde_json::Map<String, serde_json::Value>) -> (text: Result<
    String,
    String,
>)
    ensures
        match text {
            Ok(t) => encoded(*object) == Some(t@),
            Err(_) => encoded(*object) is None,
        },
{
    match serde_json::to_string(object) {
        Ok(text) => Ok(text),
        Err(failure) => Err(failure.to_string()),
    }
}

/// `serde_json::from_str` for a `Value`. Its result depends on the text
/// alone: the value is `decoded` of it. Where it fails, what comes back is
/// the failure as `std::fmt::Display` words it, of which nothing is claimed.
#[verifier::external_body]
pub(crate) fn decode_value(text: &str) -> (value: Result<serde_json::Value, String>)
    ensures
        match value {
            Ok(v) => decoded(text@) == Some(v),
            Err(_) => decoded(text@) is None,
        },
{
    match serde_json::from_str::<serde_json::Value>(text) {
        Ok(value) => Ok(value),
        Err(failure) => Err(failure.to_string()),
    }
}

/// `serde_json::Value::as_object`, with the members copied out: `Some` for an
/// object, `None` for any other value.
#[verifier::external_body]
pub(crate) fn members_of(value: &serde_json::Value) -> (members: Option<
    serde_json::Map<String, serde_json::Value>,
>)
    ensures
        members == object_of(*value),
{
    value.as_object().cloned()
}

} // verus!
