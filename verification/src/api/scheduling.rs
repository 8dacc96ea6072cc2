use crate::api::activities::ActivityId;
use vstd::prelude::*;

verus! {

#[allow(dead_code)]
pub enum Schedule {
    NoReadyActivity,  // Pending activities but nothing in a runnable state
    Activity(Option<Vec<ActivityId>>),  // List of ready to run activities
    Complete,  // Activities present and all have been executed
}

} // verus!
