use crate::text::{clone_opt_strings, opt_strings_view};
use serde_json::Value;
use vstd::prelude::*;

verus! {

pub type ActivityId = String;

pub type ActivityKind = String;

/// The core of an activity or an activity event
#[derive(Clone, Debug)]
pub struct ActivityCore {
    pub id: ActivityId,
    pub kind: ActivityKind,
    /// Static Configuration Value for the Activity
    pub config: Option<Value>,
    // RELATIONSHIPS
    /// Indicates a partial ordering amongst related activities
    pub depends_on: Option<Vec<ActivityId>>,
    // RETRY TRACKING
    /// Current attempt number (starts at 0, incremented on each retry)
    pub attempt: u32,
    /// Total number of times this activity has failed
    pub failure_count: u32,
    /// Total number of times this activity has errored
    pub error_count: u32,
}

/// The core of an activity as mathematical values.
pub struct CoreView {
    pub id: Seq<char>,
    pub kind: Seq<char>,
    pub config: Option<Value>,
    pub depends_on: Option<Seq<Seq<char>>>,
    pub attempt: u32,
    pub failure_count: u32,
    pub error_count: u32,
}

impl View for ActivityCore {
    type V = CoreView;

    open spec fn view(&self) -> CoreView {
        CoreView {
            id: self.id@,
            kind: self.kind@,
            config: self.config,
            depends_on: opt_strings_view(self.depends_on),
            attempt: self.attempt,
            failure_count: self.failure_count,
            error_count: self.error_count,
        }
    }
}

/// Copies an optional JSON value.
pub fn clone_opt_value(v: &Option<Value>) -> (r: Option<Value>)
    ensures
        r == *v,
{
    match v {
        Some(v) => Some(crate::json::clone_value(v)),
        None => None,
    }
}

impl ActivityCore {
    /// A copy of this core.
    pub fn duplicate(&self) -> (r: ActivityCore)
        ensures
            r@ == self@,
    {
        ActivityCore {
            id: self.id.clone(),
            kind: self.kind.clone(),
            config: clone_opt_value(&self.config),
            depends_on: clone_opt_strings(&self.depends_on),
            attempt: self.attempt,
            failure_count: self.failure_count,
            error_count: self.error_count,
        }
    }
}

} // verus!
