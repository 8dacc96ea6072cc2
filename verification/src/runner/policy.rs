use crate::api::activities::ActivityEvent;
use crate::api::execution::{has_id, index_of, DefaultExecutionState, ExecutionState};
use vstd::prelude::*;

verus! {

/// The retry policy allows another attempt: the activity failed or errored and
/// has had fewer attempts than the execution allows.
pub open spec fn retry_allowed(execution_state: DefaultExecutionState, id: Seq<char>) -> bool {
    let s = execution_state@;
    &&& has_id(s, id)
    &&& (s[index_of(s, id)].failed() || s[index_of(s, id)].errored())
    &&& s[index_of(s, id)].core.attempt < execution_state.max_retries
}

/// Checks the given activity and returns a Retry event if the policy allows it.
pub fn apply_policy(execution_state: &DefaultExecutionState, activity_id: &str) -> (r: Option<
    ActivityEvent,
>)
    requires
        execution_state.wf(),
    ensures
        r is Some <==> retry_allowed(*execution_state, activity_id@),
        r matches Some(e) ==> (e matches ActivityEvent::Retry(id) && id@ == activity_id@),
{
    let activity = match execution_state.get_activity_state(activity_id) {
        Some(a) => a,
        None => {
            return None;
        },
    };
    proof {
        let i = choose|i: int|
            crate::api::execution::id_at(execution_state@, i, activity_id@) && *activity
                == execution_state.activity_states@[i];
        crate::api::execution::lemma_index_of_unique(execution_state@, i, activity_id@);
    }
    if !activity.is_failed() && !activity.is_error() {
        return None;
    }
    let core = activity.get_core();
    if core.attempt < execution_state.max_retries() {
        Some(ActivityEvent::retry(core.id.as_str()))
    } else {
        None
    }
}

} // verus!
