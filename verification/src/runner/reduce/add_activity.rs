use crate::api::activities::Activity;
use crate::api::execution::{has_id, DefaultExecutionState, ExecutionState, ExecutionStateError};
use crate::runner::reduce::self_dependent;
use crate::text::strings_contain;
use vstd::prelude::*;

verus! {

/// Appends a new activity to the execution. Refused when an activity with its id
/// is present, or when it depends on itself.
pub fn append_activity_state(
    execution_state: DefaultExecutionState,
    activity: Activity,
) -> (r: Result<DefaultExecutionState, ExecutionStateError>)
    requires
        execution_state.wf(),
    ensures
        has_id(execution_state@, activity@.core.id) ==> r matches Err(
            ExecutionStateError::DuplicateActivityIdError,
        ),
        !has_id(execution_state@, activity@.core.id) && self_dependent(activity@.core) ==> r matches Err(
            ExecutionStateError::SelfReferentialDependency,
        ),
        !has_id(execution_state@, activity@.core.id) && !self_dependent(activity@.core) ==> (r matches Ok(
            s,
        ) && s.wf() && s@ == execution_state@.push(activity@) && s.activity_states@
            == execution_state.activity_states@.push(activity) && s.activity_graph
            == execution_state.activity_graph && s.max_retries == execution_state.max_retries),
{
    let mut execution_state = execution_state;
    if execution_state.get_activity_state(activity.id()).is_some() {
        return Err(ExecutionStateError::DuplicateActivityIdError);
    }
    if let Some(deps) = &activity.get_core().depends_on {
        if strings_contain(deps, activity.id()) {
            return Err(ExecutionStateError::SelfReferentialDependency);
        }
    }
    let ghost before = execution_state@;
    execution_state.activity_states.push(activity);
    proof {
        let after = execution_state@;
        assert(after =~= before.push(activity@));
        assert forall|x: int, y: int|
            0 <= x < after.len() && 0 <= y < after.len() && x != y implies after[x].core.id
            != after[y].core.id by {
            if x == before.len() {
                assert(!crate::api::execution::id_at(before, y, activity@.core.id));
            } else if y == before.len() {
                assert(!crate::api::execution::id_at(before, x, activity@.core.id));
            }
        }
    }
    Ok(execution_state)
}

} // verus!
