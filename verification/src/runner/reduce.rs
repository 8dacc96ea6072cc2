mod add_activity;
mod get_execution_status;
mod update_activity;
mod update_graph;

use crate::api::activities::{clone_opt_value, start_time, Activity, ActivityCore, ActivityEvent, ActivityView, AddActivityPayload, AsyncActivity, AsyncReady, AsyncRunning, CoreView, Phase, RanActivity, SyncActivity, SyncNew, SyncReady, SyncRunning};
use crate::api::events::Event;
use crate::api::execution::{has_id, id_at, ids_of, index_of, lemma_index_of_unique, stopped, DefaultExecutionState, ExecutionState};
use crate::text::clone_opt_strings;
use crate::runner::controller::prior_output;
use serde_json::Value;
use crate::graph::{graph_edges, graph_nodes};
use crate::text::opt_strings_view;
use petgraph::Graph;
use vstd::prelude::*;

pub use add_activity::append_activity_state;
pub use get_execution_status::get_execution_status;
pub use update_activity::update;
pub use update_graph::update_graph;

verus! {

pub struct ReduceState {
    pub execution_state: DefaultExecutionState,
    pub changed_activity: Option<Activity>,
}

// ============================================================
// What an event does to the activities of an execution
// ============================================================

/// The core of an activity added by an event: the payload's fields, with every
/// counter at zero.
pub open spec fn added_core(p: AddActivityPayload) -> CoreView {
    CoreView {
        id: p.id@,
        kind: p.kind@,
        config: p.config,
        depends_on: opt_strings_view(p.depends_on),
        attempt: 0,
        failure_count: 0,
        error_count: 0,
    }
}

/// An activity as an add event creates it: a new synchronous activity, or a
/// ready asynchronous one.
pub open spec fn added_view(p: AddActivityPayload, is_async: bool) -> ActivityView {
    ActivityView {
        is_async,
        phase: if is_async { Phase::Ready } else { Phase::New },
        core: added_core(p),
        input: None,
        output: None,
        failure: None,
    }
}

/// The activity lists itself among its own dependencies.
pub open spec fn self_dependent(c: CoreView) -> bool {
    match c.depends_on {
        Some(d) => d.contains(c.id),
        None => false,
    }
}

/// A synchronous activity that has not started: new, waiting on dependencies or ready.
pub open spec fn pending_sync(a: ActivityView) -> bool {
    !a.is_async && (a.phase is New || a.phase is UnfulfilledDependencies || a.phase is Ready)
}

/// The activity with id `dep` is present and completed.
pub open spec fn dependency_met(s: Seq<ActivityView>, dep: Seq<char>) -> bool {
    exists|i: int| id_at(s, i, dep) && #[trigger] s[i].completed()
}

/// Every dependency of the core is present and completed.
pub open spec fn deps_met(s: Seq<ActivityView>, c: CoreView) -> bool {
    match c.depends_on {
        Some(d) => forall|j: int| 0 <= j < d.len() ==> dependency_met(s, #[trigger] d[j]),
        None => true,
    }
}

/// A pending synchronous activity becomes ready with the input `input` when
/// `met`, and waits on its dependencies otherwise; other activities are kept.
pub open spec fn refresh_to(a: ActivityView, met: bool, input: Option<Value>) -> ActivityView {
    if pending_sync(a) {
        ActivityView {
            is_async: false,
            phase: if met {
                Phase::Ready
            } else {
                Phase::UnfulfilledDependencies
            },
            core: a.core,
            input: if met {
                input
            } else {
                None
            },
            output: None,
            failure: None,
        }
    } else {
        a
    }
}

/// A pending synchronous activity becomes ready when its dependencies are met,
/// with the output of the activity before it as input, and waits on them
/// otherwise; other activities are kept.
pub open spec fn refreshed(s: Seq<ActivityView>, a: ActivityView) -> ActivityView {
    refresh_to(a, deps_met(s, a.core), prior_output(s, a.core.id))
}

/// Readiness re-evaluated for every activity against the whole execution.
pub open spec fn refresh_all(s: Seq<ActivityView>) -> Seq<ActivityView> {
    s.map_values(|a: ActivityView| refreshed(s, a))
}

/// The activity `a` of `s` started: running, a synchronous one with the input it
/// was made ready with, an asynchronous one with the output of the activity
/// before it as input.
pub open spec fn started(s: Seq<ActivityView>, a: ActivityView) -> ActivityView {
    ActivityView {
        phase: Phase::Running,
        input: if a.is_async {
            prior_output(s, a.core.id)
        } else {
            a.input
        },
        ..a
    }
}

pub open spec fn completed_with(a: ActivityView, output: Option<serde_json::Value>) -> ActivityView {
    ActivityView { phase: Phase::Completed, output, ..a }
}

/// The failure recorded for an optional reason: the reason alone.
pub open spec fn failure_of(reason: Option<String>) -> Option<Seq<Seq<char>>> {
    match reason {
        Some(r) => Some(seq![r@]),
        None => None,
    }
}

pub open spec fn failed_with(a: ActivityView, reason: Option<String>) -> ActivityView {
    ActivityView { phase: Phase::Failed, failure: failure_of(reason), ..a }
}

pub open spec fn errored_with(a: ActivityView, reason: Option<String>) -> ActivityView {
    ActivityView { phase: Phase::Error, failure: failure_of(reason), ..a }
}

/// The activities after an activity event.
pub open spec fn reduce_activity_view(s: Seq<ActivityView>, e: ActivityEvent) -> Seq<ActivityView> {
    match e {
        ActivityEvent::AddSync(p) => refresh_all(s.push(added_view(p, false))),
        ActivityEvent::AddAsync(p) => refresh_all(s.push(added_view(p, true))),
        ActivityEvent::Start(id) => s.update(index_of(s, id@), started(s, s[index_of(s, id@)])),
        ActivityEvent::Complete(p) => refresh_all(
            s.update(index_of(s, p.id@), completed_with(s[index_of(s, p.id@)], p.output)),
        ),
        ActivityEvent::Failed(p) => s.update(
            index_of(s, p.id@),
            failed_with(s[index_of(s, p.id@)], p.reason),
        ),
        ActivityEvent::Error(p) => s.update(
            index_of(s, p.id@),
            errored_with(s[index_of(s, p.id@)], p.reason),
        ),
        ActivityEvent::Retry(_) => s,
    }
}

/// The activities after an event; system events change nothing.
pub open spec fn reduce_view(s: Seq<ActivityView>, e: Event) -> Seq<ActivityView> {
    match e {
        Event::Activity(ae) => reduce_activity_view(s, ae),
        Event::System(_) => s,
    }
}

// ============================================================
// The dependency graph
// ============================================================

pub open spec fn cores_of(s: Seq<ActivityView>) -> Seq<CoreView> {
    s.map_values(|a: ActivityView| a.core)
}

/// Some core has the id.
pub open spec fn core_has(c: Seq<CoreView>, id: Seq<char>) -> bool {
    exists|i: int| 0 <= i < c.len() && c[i].id == id
}

/// The index of the core with the id (meaningful when there is one).
pub open spec fn core_index(c: Seq<CoreView>, id: Seq<char>) -> int {
    choose|i: int| 0 <= i < c.len() && c[i].id == id
}

/// The edges from the present dependencies `deps` to the activity at `i`.
pub open spec fn dep_edges(c: Seq<CoreView>, i: int, deps: Seq<Seq<char>>) -> Seq<(int, int)>
    decreases deps.len(),
{
    if deps.len() == 0 {
        Seq::empty()
    } else {
        dep_edges(c, i, deps.drop_last()) + if core_has(c, deps.last()) {
            seq![(core_index(c, deps.last()), i)]
        } else {
            Seq::empty()
        }
    }
}

/// The edges into the activity at `i`.
pub open spec fn activity_edges(c: Seq<CoreView>, i: int) -> Seq<(int, int)> {
    match c[i].depends_on {
        Some(d) => dep_edges(c, i, d),
        None => Seq::empty(),
    }
}

/// The edges into the first `n` activities, in order.
pub open spec fn edges_upto(c: Seq<CoreView>, n: int) -> Seq<(int, int)>
    decreases n,
{
    if n <= 0 {
        Seq::empty()
    } else {
        edges_upto(c, n - 1) + activity_edges(c, n - 1)
    }
}

/// One edge from each present dependency to its dependent, activity by activity.
pub open spec fn dependency_edges(c: Seq<CoreView>) -> Seq<(int, int)> {
    edges_upto(c, c.len() as int)
}

/// The graph of the activities fits petgraph's 32-bit indices.
pub open spec fn graph_fits(s: Seq<ActivityView>) -> bool {
    s.len() <= u32::MAX && dependency_edges(cores_of(s)).len() <= u32::MAX
}

/// The graph has a node per activity, weighted with its id, and an edge from each
/// present dependency to its dependent.
pub open spec fn graph_matches(
    g: Graph<String, crate::api::execution::ExecutionGraphRelation>,
    s: Seq<ActivityView>,
) -> bool {
    graph_nodes(g) == crate::api::execution::ids_of(s) && graph_edges(g) == dependency_edges(
        cores_of(s),
    )
}

// ============================================================
// When an event may be applied
// ============================================================

/// An add event applies when its id is new, the activity does not depend on
/// itself, and the graph still fits.
pub open spec fn add_applies(s: Seq<ActivityView>, p: AddActivityPayload, is_async: bool) -> bool {
    &&& !has_id(s, p.id@)
    &&& !self_dependent(added_core(p))
    &&& graph_fits(s.push(added_view(p, is_async)))
}

/// The activity with the id is running and the execution has not stopped.
pub open spec fn running_target(s: Seq<ActivityView>, id: Seq<char>) -> bool {
    &&& has_id(s, id)
    &&& s[index_of(s, id)].phase is Running
    &&& !stopped(s)
}

/// The activity events that the reducer accepts in a state; it panics on the others.
pub open spec fn activity_event_applies(s: Seq<ActivityView>, e: ActivityEvent) -> bool {
    match e {
        ActivityEvent::AddSync(p) => add_applies(s, p, false),
        ActivityEvent::AddAsync(p) => add_applies(s, p, true),
        ActivityEvent::Start(id) => has_id(s, id@) && s[index_of(s, id@)].phase is Ready && !stopped(s),
        ActivityEvent::Complete(p) => running_target(s, p.id@) && graph_fits(s),
        ActivityEvent::Failed(p) => running_target(s, p.id@),
        ActivityEvent::Error(p) => running_target(s, p.id@),
        ActivityEvent::Retry(_) => true,
    }
}

/// The events that the reducer accepts in a state.
pub open spec fn event_applies(s: Seq<ActivityView>, e: Event) -> bool {
    match e {
        Event::Activity(ae) => activity_event_applies(s, ae),
        Event::System(_) => true,
    }
}

/// Adding and completing activities rebuild the dependency graph.
pub open spec fn rebuilds_graph(e: Event) -> bool {
    match e {
        Event::Activity(ActivityEvent::AddSync(_)) => true,
        Event::Activity(ActivityEvent::AddAsync(_)) => true,
        Event::Activity(ActivityEvent::Complete(_)) => true,
        _ => false,
    }
}

/// The event rewrites the activity at `j`: it is the activity the event starts,
/// completes, fails or errors, or a pending synchronous activity whose readiness
/// the event re-evaluates. Every other activity is kept whole.
pub open spec fn rewrites(s: Seq<ActivityView>, e: Event, j: int) -> bool {
    match e {
        Event::Activity(ae) => match ae {
            ActivityEvent::AddSync(_) => pending_sync(s[j]),
            ActivityEvent::AddAsync(_) => pending_sync(s[j]),
            ActivityEvent::Start(id) => j == index_of(s, id@),
            ActivityEvent::Complete(p) => j == index_of(s, p.id@) || pending_sync(s[j]),
            ActivityEvent::Failed(p) => j == index_of(s, p.id@),
            ActivityEvent::Error(p) => j == index_of(s, p.id@),
            ActivityEvent::Retry(_) => false,
        },
        Event::System(_) => false,
    }
}

/// The id of the activity that the event closes: completes, fails or errors.
pub open spec fn closed_by(e: Event) -> Option<Seq<char>> {
    match e {
        Event::Activity(ActivityEvent::Complete(p)) => Some(p.id@),
        Event::Activity(ActivityEvent::Failed(p)) => Some(p.id@),
        Event::Activity(ActivityEvent::Error(p)) => Some(p.id@),
        _ => None,
    }
}

/// The id of the activity that the event starts.
pub open spec fn started_by(e: Event) -> Option<Seq<char>> {
    match e {
        Event::Activity(ActivityEvent::Start(id)) => Some(id@),
        _ => None,
    }
}

/// How an event changes the activities beyond their views: every activity it
/// does not rewrite is kept whole, an activity it closes keeps the start time of
/// its run, and an activity it starts has a start time.
pub open spec fn keeps_runs(s: DefaultExecutionState, r: DefaultExecutionState, e: Event) -> bool {
    &&& forall|j: int|
        0 <= j < s@.len() && !rewrites(s@, e, j) ==> r.activity_states@[j]
            == s.activity_states@[j]
    &&& closed_by(e) matches Some(id) ==> start_time(r.activity_states@[index_of(s@, id)])
        == start_time(s.activity_states@[index_of(s@, id)])
    &&& started_by(e) matches Some(id) ==> start_time(
        r.activity_states@[index_of(s@, id)],
    ) is Some
}

/// Re-evaluating readiness keeps every core.
pub proof fn lemma_refresh_keeps_cores(s: Seq<ActivityView>)
    ensures
        cores_of(refresh_all(s)) == cores_of(s),
        ids_of(refresh_all(s)) == ids_of(s),
{
    assert(cores_of(refresh_all(s)) =~= cores_of(s));
    assert(ids_of(refresh_all(s)) =~= ids_of(s));
}

/// Replacing an activity by one with the same core keeps every core.
pub proof fn lemma_update_keeps_cores(s: Seq<ActivityView>, i: int, a: ActivityView)
    requires
        0 <= i < s.len(),
        a.core == s[i].core,
    ensures
        cores_of(s.update(i, a)) == cores_of(s),
        ids_of(s.update(i, a)) == ids_of(s),
{
    assert(cores_of(s.update(i, a)) =~= cores_of(s));
    assert(ids_of(s.update(i, a)) =~= ids_of(s));
}

/// An event that applies keeps the graph within petgraph's 32-bit indices.
pub proof fn lemma_reduce_keeps_fit(s: Seq<ActivityView>, e: Event)
    requires
        event_applies(s, e),
        graph_fits(s),
    ensures
        graph_fits(reduce_view(s, e)),
{
    match e {
        Event::Activity(ae) => match ae {
            ActivityEvent::AddSync(p) => {
                lemma_refresh_keeps_cores(s.push(added_view(p, false)));
            },
            ActivityEvent::AddAsync(p) => {
                lemma_refresh_keeps_cores(s.push(added_view(p, true)));
            },
            ActivityEvent::Start(id) => {
                let i = index_of(s, id@);
                lemma_update_keeps_cores(s, i, started(s, s[i]));
            },
            ActivityEvent::Complete(p) => {
                let i = index_of(s, p.id@);
                lemma_update_keeps_cores(s, i, completed_with(s[i], p.output));
                lemma_refresh_keeps_cores(s.update(i, completed_with(s[i], p.output)));
            },
            ActivityEvent::Failed(p) => {
                let i = index_of(s, p.id@);
                lemma_update_keeps_cores(s, i, failed_with(s[i], p.reason));
            },
            ActivityEvent::Error(p) => {
                let i = index_of(s, p.id@);
                lemma_update_keeps_cores(s, i, errored_with(s[i], p.reason));
            },
            ActivityEvent::Retry(_) => {},
        },
        Event::System(_) => {},
    }
}

// ============================================================
// The reducer
// ============================================================

/// Takes prior state + an event and returns an updated state
pub fn reduce(execution_state: DefaultExecutionState, event: &Event) -> (r: DefaultExecutionState)
    requires
        execution_state.wf(),
        event_applies(execution_state@, *event),
    ensures
        r.wf(),
        r@ == reduce_view(execution_state@, *event),
        r.max_retries == execution_state.max_retries,
        rebuilds_graph(*event) || graph_matches(execution_state.activity_graph, execution_state@)
            ==> graph_matches(r.activity_graph, r@),
        !rebuilds_graph(*event) ==> r.activity_graph == execution_state.activity_graph,
        keeps_runs(execution_state, r, *event),
        *event is System ==> r == execution_state,
{
    match event {
        Event::Activity(activity_event) => reduce_activity(execution_state, activity_event),
        Event::System(_) => execution_state,
    }
}

fn new_core(payload: &AddActivityPayload) -> (r: ActivityCore)
    ensures
        r@ == added_core(*payload),
{
    ActivityCore {
        id: payload.id.clone(),
        kind: payload.kind.clone(),
        config: clone_opt_value(&payload.config),
        depends_on: clone_opt_strings(&payload.depends_on),
        attempt: 0,
        failure_count: 0,
        error_count: 0,
    }
}

fn copy_ran(r: &RanActivity) -> (c: RanActivity)
    ensures
        c == *r,
{
    RanActivity { started_at: r.started_at, input: clone_opt_value(&r.input) }
}

fn copy_sync_ready(r: &SyncReady) -> (c: SyncReady)
    ensures
        c.core@ == r.core@,
        c.input == r.input,
{
    SyncReady { core: r.core.duplicate(), input: clone_opt_value(&r.input) }
}

fn copy_async_ready(r: &AsyncReady) -> (c: AsyncReady)
    ensures
        c.core@ == r.core@,
{
    AsyncReady { core: r.core.duplicate() }
}

fn copy_sync_running(r: &SyncRunning) -> (c: SyncRunning)
    ensures
        c.core@ == r.core@,
        c.ran == r.ran,
{
    SyncRunning { core: r.core.duplicate(), ran: copy_ran(&r.ran) }
}

fn copy_async_running(r: &AsyncRunning) -> (c: AsyncRunning)
    ensures
        c.core@ == r.core@,
        c.ran == r.ran,
{
    AsyncRunning { core: r.core.duplicate(), ran: copy_ran(&r.ran) }
}

/// The failure recorded for a reason.
fn failure_from(reason: &Option<String>) -> (r: Option<Vec<String>>)
    ensures
        opt_strings_view(r) == failure_of(*reason),
{
    match reason {
        Some(text) => {
            let v = vec![text.clone()];
            assert(crate::text::strings_view(v@) =~= seq![text@]);
            Some(v)
        },
        None => None,
    }
}

/// The activity with the id, which the state holds.
pub fn activity_with_id<'a>(execution_state: &'a DefaultExecutionState, id: &str) -> (r: &'a Activity)
    requires
        execution_state.wf(),
        has_id(execution_state@, id@),
    ensures
        *r == execution_state.activity_states@[index_of(execution_state@, id@)],
{
    let found = execution_state.get_activity_state(id);
    proof {
        let i = choose|i: int|
            id_at(execution_state@, i, id@) && *found.unwrap() == execution_state.activity_states@[i];
        lemma_index_of_unique(execution_state@, i, id@);
    }
    found.unwrap()
}

fn reduce_activity(
    execution_state: DefaultExecutionState,
    activity_event: &ActivityEvent,
) -> (r: DefaultExecutionState)
    requires
        execution_state.wf(),
        activity_event_applies(execution_state@, *activity_event),
    ensures
        r.wf(),
        r@ == reduce_activity_view(execution_state@, *activity_event),
        r.max_retries == execution_state.max_retries,
        rebuilds_graph(Event::Activity(*activity_event)) || graph_matches(
            execution_state.activity_graph,
            execution_state@,
        ) ==> graph_matches(r.activity_graph, r@),
        !rebuilds_graph(Event::Activity(*activity_event)) ==> r.activity_graph
            == execution_state.activity_graph,
        keeps_runs(execution_state, r, Event::Activity(*activity_event)),
        *activity_event is Retry ==> r == execution_state,
{
    let ghost s = execution_state@;
    match activity_event {
        ActivityEvent::AddSync(payload) => {
            let activity = Activity::from(SyncActivity::from(SyncNew::new(new_core(payload))));
            assert(activity@ == added_view(*payload, false));
            let state = append_activity_state(execution_state, activity).unwrap();
            let r = update_graph(state);
            proof {
                lemma_refresh_keeps_cores(s.push(activity@));
            }
            r
        },
        ActivityEvent::AddAsync(payload) => {
            let activity = Activity::from(AsyncActivity::from(AsyncReady::new(new_core(payload))));
            assert(activity@ == added_view(*payload, true));
            let state = append_activity_state(execution_state, activity).unwrap();
            let r = update_graph(state);
            proof {
                lemma_refresh_keeps_cores(s.push(activity@));
            }
            r
        },
        ActivityEvent::Start(id) => {
            let ghost i = index_of(s, id@);
            let prior = crate::runner::controller::resolve_prior_output(&execution_state, id.as_str());
            let new_activity = match activity_with_id(&execution_state, id.as_str()) {
                Activity::Sync(SyncActivity::Ready(ready)) => Some(
                    Activity::from(SyncActivity::from(copy_sync_ready(ready).start())),
                ),
                Activity::Async(AsyncActivity::Ready(ready)) => Some(
                    Activity::from(AsyncActivity::from(copy_async_ready(ready).start(prior))),
                ),
                _ => None,
            }.unwrap();
            assert(new_activity@ == started(s, s[i]));
            let r = update(execution_state, new_activity).unwrap();
            proof {
                lemma_update_keeps_cores(s, i, new_activity@);
            }
            r
        },
        ActivityEvent::Complete(payload) => {
            let ghost i = index_of(s, payload.id@);
            let new_activity = match activity_with_id(&execution_state, payload.id.as_str()) {
                Activity::Sync(SyncActivity::Running(running)) => Some(
                    Activity::from(
                        SyncActivity::from(
                            copy_sync_running(running).complete(clone_opt_value(&payload.output)),
                        ),
                    ),
                ),
                Activity::Async(AsyncActivity::Running(running)) => Some(
                    Activity::from(
                        AsyncActivity::from(
                            copy_async_running(running).complete(clone_opt_value(&payload.output)),
                        ),
                    ),
                ),
                _ => None,
            }.unwrap();
            assert(new_activity@ == completed_with(s[i], payload.output));
            let state = update(execution_state, new_activity).unwrap();
            proof {
                lemma_update_keeps_cores(s, i, new_activity@);
            }
            let r = update_graph(state);
            proof {
                lemma_refresh_keeps_cores(state@);
            }
            r
        },
        ActivityEvent::Failed(payload) => {
            let ghost i = index_of(s, payload.id@);
            let failure = failure_from(&payload.reason);
            let new_activity = match activity_with_id(&execution_state, payload.id.as_str()) {
                Activity::Sync(SyncActivity::Running(running)) => Some(
                    Activity::from(SyncActivity::from(copy_sync_running(running).fail(failure))),
                ),
                Activity::Async(AsyncActivity::Running(running)) => Some(
                    Activity::from(AsyncActivity::from(copy_async_running(running).fail(failure))),
                ),
                _ => None,
            }.unwrap();
            assert(new_activity@ == failed_with(s[i], payload.reason));
            let r = update(execution_state, new_activity).unwrap();
            proof {
                lemma_update_keeps_cores(s, i, new_activity@);
            }
            r
        },
        ActivityEvent::Error(payload) => {
            let ghost i = index_of(s, payload.id@);
            let failure = failure_from(&payload.reason);
            let new_activity = match activity_with_id(&execution_state, payload.id.as_str()) {
                Activity::Sync(SyncActivity::Running(running)) => Some(
                    Activity::from(SyncActivity::from(copy_sync_running(running).error(failure))),
                ),
                Activity::Async(AsyncActivity::Running(running)) => Some(
                    Activity::from(AsyncActivity::from(copy_async_running(running).error(failure))),
                ),
                _ => None,
            }.unwrap();
            assert(new_activity@ == errored_with(s[i], payload.reason));
            let r = update(execution_state, new_activity).unwrap();
            proof {
                lemma_update_keeps_cores(s, i, new_activity@);
            }
            r
        },
        ActivityEvent::Retry(_) => execution_state,
    }
}

} // verus!
