//! Echo activity — passes input through to output
use crate::json::clone_value;
use serde_json::Value;
use vstd::prelude::*;

verus! {

pub const ID: &'static str = "echo";

/// Returns the input as the output.
pub fn execute(_config: &Value, input: &Value) -> (r: Result<Value, Vec<String>>)
    ensures
        r == Ok::<Value, Vec<String>>(*input),
{
    Ok(clone_value(input))
}

} // verus!
