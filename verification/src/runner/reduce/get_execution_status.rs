use crate::api::execution::{status_of, DefaultExecutionState, ExecutionState, ExecutionStatus};
use vstd::prelude::*;

verus! {

/// The status of an execution: `New` without activities, `Finished` when all are
/// completed, else `Failed` when one failed, else `Error` when one errored, else
/// `Running`.
pub fn get_execution_status(execution_state: &DefaultExecutionState) -> (r: ExecutionStatus)
    ensures
        r == status_of(execution_state@),
{
    let acts = execution_state.activities();
    let ghost s = execution_state@;
    if acts.len() == 0 {
        return ExecutionStatus::New;
    }
    let mut all_completed = true;
    let mut any_failed = false;
    let mut any_error = false;
    let mut i: usize = 0;
    while i < acts.len()
        invariant
            i <= acts@.len(),
            acts@ == execution_state.activity_states@,
            s == execution_state@,
            all_completed == (forall|j: int| 0 <= j < i ==> #[trigger] s[j].completed()),
            any_failed == (exists|j: int| 0 <= j < i && #[trigger] s[j].failed()),
            any_error == (exists|j: int| 0 <= j < i && #[trigger] s[j].errored()),
        decreases acts@.len() - i,
    {
        let a = &acts[i];
        assert(s[i as int] == a@);
        if !a.is_completed() {
            all_completed = false;
        }
        if a.is_failed() {
            any_failed = true;
        }
        if a.is_error() {
            any_error = true;
        }
        i = i + 1;
    }
    if all_completed {
        ExecutionStatus::Finished
    } else if any_failed {
        ExecutionStatus::Failed
    } else if any_error {
        ExecutionStatus::Error
    } else {
        ExecutionStatus::Running
    }
}

} // verus!
