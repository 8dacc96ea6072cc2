use serde_json::Value;
use vstd::prelude::*;

verus! {

/// A JSON value, carried through the engine as configuration, input and output
/// of activities. The engine never looks inside one.
#[verifier::external_type_specification]
#[verifier::external_body]
pub struct ExValue(Value);

/// What `Value::from` returns for an optional JSON value.
pub uninterp spec fn json_from_option(v: Option<Value>) -> Value;

/// Calls `serde_json::Value::clone`. The derived clone of a JSON value is that
/// same value.
#[verifier::external_body]
pub(crate) fn clone_value(v: &Value) -> (r: Value)
    ensures
        r == *v,
{
    v.clone()
}

/// Calls `<serde_json::Value as From<Option<Value>>>::from`, which gives the
/// value inside `Some` unchanged (through the identity `Into`) and `Value::Null`
/// for `None`; the null value is left to the name.
#[verifier::external_body]
pub(crate) fn value_from_option(v: Option<Value>) -> (r: Value)
    ensures
        r == json_from_option(v),
        v matches Some(x) ==> r == x,
{
    Value::from(v)
}

} // verus!
