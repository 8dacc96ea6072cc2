//! Fixed output activity — returns config as output
use crate::json::clone_value;
use serde_json::Value;
use vstd::prelude::*;

verus! {

pub const ID: &'static str = "fixed_output";

/// Returns the configuration as the output, whatever the input.
pub fn execute(config: &Value, _input: &Value) -> (r: Result<Value, Vec<String>>)
    ensures
        r == Ok::<Value, Vec<String>>(*config),
{
    Ok(clone_value(config))
}

} // verus!
