use crate::api::activities::ActivityView;
use crate::api::execution::{DefaultExecutionState, ExecutionState};
use vstd::prelude::*;

verus! {

/// `s[i]` is the first activity that may be started.
pub open spec fn first_runnable(s: Seq<ActivityView>, i: int) -> bool {
    &&& 0 <= i < s.len()
    &&& s[i].runnable()
    &&& forall|j: int| 0 <= j < i ==> !(#[trigger] s[j]).runnable()
}

/// No activity may be started.
pub open spec fn none_runnable(s: Seq<ActivityView>) -> bool {
    forall|i: int| 0 <= i < s.len() ==> !(#[trigger] s[i]).runnable()
}

/// Given an execution state (and later a system state) this determines what activity to run next.
pub fn scheduler(execution_state: &DefaultExecutionState) -> (r: Option<String>)
    ensures
        r is None <==> none_runnable(execution_state@),
        r matches Some(id) ==> exists|i: int|
            first_runnable(execution_state@, i) && execution_state@[i].core.id == id@,
{
    let acts = execution_state.activities();
    let ghost s = execution_state@;
    let mut i: usize = 0;
    while i < acts.len()
        invariant
            i <= acts@.len(),
            acts@ == execution_state.activity_states@,
            s == execution_state@,
            forall|j: int| 0 <= j < i ==> !(#[trigger] s[j]).runnable(),
        decreases acts@.len() - i,
    {
        if acts[i].is_runnable() {
            let id = crate::text::owned(acts[i].id());
            assert(first_runnable(s, i as int));
            return Some(id);
        }
        i = i + 1;
    }
    None
}

} // verus!
