//! Creates a realized execution state from an event stream
use crate::api::activities::ActivityView;
use crate::api::events::{Event, EventStream};
use crate::api::execution::DefaultExecutionState;
use crate::runner::reduce::{
    event_applies, graph_fits, graph_matches, lemma_reduce_keeps_fit, reduce, reduce_view,
};
use vstd::prelude::*;

verus! {

/// The activities that replaying the events gives, from an empty execution.
pub open spec fn restore_view(log: Seq<Event>) -> Seq<ActivityView>
    decreases log.len(),
{
    if log.len() == 0 {
        Seq::empty()
    } else {
        reduce_view(restore_view(log.drop_last()), log.last())
    }
}

/// Every event applies to the state that the events before it give.
pub open spec fn log_applies(log: Seq<Event>) -> bool
    decreases log.len(),
{
    if log.len() == 0 {
        true
    } else {
        log_applies(log.drop_last()) && event_applies(restore_view(log.drop_last()), log.last())
    }
}

/// A log that applies has prefixes that apply, and each of its events applies
/// after the events before it.
pub proof fn lemma_log_applies_prefix(log: Seq<Event>, k: int)
    requires
        log_applies(log),
        0 <= k <= log.len(),
    ensures
        log_applies(log.take(k)),
        k < log.len() ==> event_applies(restore_view(log.take(k)), log[k]),
    decreases log.len() - k,
{
    if k < log.len() {
        assert(log.take(log.len() as int) =~= log);
        if k + 1 < log.len() {
            lemma_log_applies_prefix(log, k + 1);
        } else {
            assert(log.take(k + 1) =~= log);
        }
        assert(log.take(k + 1).drop_last() =~= log.take(k));
        assert(log.take(k + 1).last() == log[k]);
    } else {
        assert(log.take(k) =~= log);
    }
}

/// helper function to return a single execution state over a series of events
pub fn restore(event_stream: &EventStream) -> (r: DefaultExecutionState)
    requires
        log_applies(event_stream@),
    ensures
        r.wf(),
        r@ == restore_view(event_stream@),
        r.max_retries == 3,
        graph_matches(r.activity_graph, r@),
        graph_fits(r@),
{
    let mut execution_state = DefaultExecutionState::new(None);
    let ghost log = event_stream@;
    assert(execution_state@ =~= Seq::<ActivityView>::empty());
    assert(crate::runner::dependency_edges(crate::runner::cores_of(execution_state@)) =~= Seq::<(int, int)>::empty());
    assert(crate::api::execution::ids_of(execution_state@) =~= Seq::<Seq<char>>::empty());
    assert(crate::graph::graph_nodes(execution_state.activity_graph) =~= Seq::<Seq<char>>::empty());
    assert(crate::graph::graph_edges(execution_state.activity_graph) =~= Seq::<(int, int)>::empty());
    let mut i: usize = 0;
    while i < event_stream.len()
        invariant
            i <= log.len(),
            log == event_stream@,
            log_applies(log),
            execution_state.wf(),
            execution_state@ == restore_view(log.take(i as int)),
            execution_state.max_retries == 3,
            graph_matches(execution_state.activity_graph, execution_state@),
            graph_fits(execution_state@),
        decreases log.len() - i,
    {
        proof {
            lemma_log_applies_prefix(log, i as int);
            lemma_reduce_keeps_fit(execution_state@, event_stream@[i as int]);
            assert(log.take(i + 1).drop_last() =~= log.take(i as int));
            assert(log.take(i + 1).last() == log[i as int]);
        }
        execution_state = reduce(execution_state, &event_stream[i]);
        i = i + 1;
    }
    assert(log.take(log.len() as int) =~= log);
    execution_state
}

} // verus!
