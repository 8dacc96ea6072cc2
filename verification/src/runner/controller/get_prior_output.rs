use crate::api::activities::{clone_opt_value, Activity, ActivityView, AsyncActivity, SyncActivity};
use crate::api::execution::{has_id, index_of, position, DefaultExecutionState};
use serde_json::Value;
use vstd::prelude::*;

verus! {

/// The output of the activity just before the one with the id, when that one
/// is completed.
pub open spec fn prior_output(s: Seq<ActivityView>, id: Seq<char>) -> Option<Value> {
    if has_id(s, id) && index_of(s, id) > 0 && s[index_of(s, id) - 1].completed() {
        s[index_of(s, id) - 1].output
    } else {
        None
    }
}

pub fn resolve_prior_output(execution_state: &DefaultExecutionState, activity_id: &str) -> (r:
    Option<Value>)
    requires
        execution_state.wf(),
    ensures
        r == prior_output(execution_state@, activity_id@),
{
    let activities = &execution_state.activity_states;
    let pos = match position(activities, activity_id) {
        Some(p) => p,
        None => {
            return None;
        },
    };
    proof {
        crate::api::execution::lemma_index_of_unique(execution_state@, pos as int, activity_id@);
    }
    if pos == 0 {
        return None;
    }
    match &activities[pos - 1] {
        Activity::Sync(SyncActivity::Completed(sc)) => clone_opt_value(&sc.completed.output),
        Activity::Async(AsyncActivity::Completed(ac)) => clone_opt_value(&ac.completed.output),
        _ => None,
    }
}

} // verus!
