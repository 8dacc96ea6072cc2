use crate::api::activities::Activity;
use crate::api::execution::{has_id, index_of, stopped, DefaultExecutionState, ExecutionState, ExecutionStateError};
use crate::api::execution::position;
use vstd::prelude::*;

verus! {

/// Puts `activity` in the place of the activity with its id. Refused on an empty
/// execution, on a stopped one, and when no activity has that id.
pub fn update(
    execution_state: DefaultExecutionState,
    activity: Activity,
) -> (r: Result<DefaultExecutionState, ExecutionStateError>)
    requires
        execution_state.wf(),
    ensures
        execution_state@.len() == 0 ==> r matches Err(ExecutionStateError::InvalidActivityTransition),
        execution_state@.len() > 0 && stopped(execution_state@) ==> r matches Err(
            ExecutionStateError::TransitionOnClosedExecutionState,
        ),
        execution_state@.len() > 0 && !stopped(execution_state@) && !has_id(
            execution_state@,
            activity@.core.id,
        ) ==> r matches Err(ExecutionStateError::InvalidActivityTransition),
        execution_state@.len() > 0 && !stopped(execution_state@) && has_id(
            execution_state@,
            activity@.core.id,
        ) ==> (r matches Ok(s) && s.wf() && s@ == execution_state@.update(
            index_of(execution_state@, activity@.core.id),
            activity@,
        ) && s.activity_states@ == execution_state.activity_states@.update(
            index_of(execution_state@, activity@.core.id),
            activity,
        ) && s.activity_graph == execution_state.activity_graph && s.max_retries
            == execution_state.max_retries),
{
    let mut execution_state = execution_state;
    if execution_state.activity_count() == 0 {
        return Err(ExecutionStateError::InvalidActivityTransition);
    }
    if execution_state.is_stopped() {
        return Err(ExecutionStateError::TransitionOnClosedExecutionState);
    }
    match position(&execution_state.activity_states, activity.id()) {
        Some(i) => {
            let ghost before = execution_state@;
            proof {
                crate::api::execution::lemma_index_of_unique(before, i as int, activity@.core.id);
            }
            execution_state.activity_states.set(i, activity);
            proof {
                let after = execution_state@;
                assert(after =~= before.update(i as int, activity@));
                assert forall|x: int, y: int|
                    0 <= x < after.len() && 0 <= y < after.len() && x != y implies after[x].core.id
                    != after[y].core.id by {
                    assert(after[x].core.id == before[x].core.id);
                    assert(after[y].core.id == before[y].core.id);
                }
            }
            Ok(execution_state)
        },
        None => Err(ExecutionStateError::InvalidActivityTransition),
    }
}

} // verus!
