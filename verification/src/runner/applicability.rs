//! Deciding whether the reducer accepts an event, and whether a whole log applies.
use crate::api::activities::{Activity, ActivityCore, ActivityEvent, ActivityView, AddActivityPayload, AsyncActivity, CoreView, SyncActivity};
use crate::api::events::{Event, EventStream};
use crate::api::execution::{has_id, index_of, lemma_index_of_unique, position, stopped, DefaultExecutionState, ExecutionState};
use crate::runner::reduce::{activity_edges, add_applies, added_core, added_view, core_has, cores_of, dep_edges, dependency_edges, edges_upto, event_applies, graph_fits, reduce};
use crate::runner::restore::{log_applies, restore_view};
use crate::text::{strings_contain, strings_view};
use vstd::prelude::*;

verus! {

/// The cores behind the references.
pub open spec fn core_views(v: Seq<&ActivityCore>) -> Seq<CoreView> {
    v.map_values(|c: &ActivityCore| c@)
}

/// Whether some core has the id.
fn cores_contain(cores: &Vec<&ActivityCore>, id: &str) -> (r: bool)
    ensures
        r == core_has(core_views(cores@), id@),
{
    let ghost c = core_views(cores@);
    let mut k: usize = 0;
    while k < cores.len()
        invariant
            k <= cores@.len(),
            c == core_views(cores@),
            forall|j: int| 0 <= j < k ==> c[j].id != id@,
        decreases cores@.len() - k,
    {
        if crate::api::execution::str_equal(cores[k].id.as_str(), id) {
            assert(c[k as int].id == id@);
            return true;
        }
        k = k + 1;
    }
    false
}

/// Whether the graph of the cores has at most `u32::MAX` edges.
fn edges_fit(cores: &Vec<&ActivityCore>) -> (r: bool)
    ensures
        r == (dependency_edges(core_views(cores@)).len() <= u32::MAX),
{
    let ghost c = core_views(cores@);
    let n = cores.len();
    let mut count: u64 = 0;
    let mut i: usize = 0;
    while i < n
        invariant
            i <= n,
            n == c.len(),
            c == core_views(cores@),
            count == edges_upto(c, i as int).len(),
            count <= u32::MAX,
        decreases n - i,
    {
        assert(c[i as int] == cores@[i as int]@);
        match &cores[i].depends_on {
            Some(deps) => {
                let ghost d = strings_view(deps@);
                assert(c[i as int].depends_on == Some(d));
                let mut j: usize = 0;
                while j < deps.len()
                    invariant
                        j <= deps@.len(),
                        d == strings_view(deps@),
                        d.len() == deps@.len(),
                        c[i as int].depends_on == Some(d),
                        i < n,
                        n == c.len(),
                        c == core_views(cores@),
                        count == edges_upto(c, i as int).len() + dep_edges(
                            c,
                            i as int,
                            d.take(j as int),
                        ).len(),
                        count <= u32::MAX,
                    decreases deps@.len() - j,
                {
                    assert(d.take(j + 1).drop_last() =~= d.take(j as int));
                    assert(d.take(j + 1).last() == d[j as int]);
                    if cores_contain(cores, deps[j].as_str()) {
                        count = count + 1;
                        if count > 0xffff_ffff {
                            proof {
                                lemma_dep_edges_prefix_len(c, i as int, d, j as int + 1);
                                assert(d.take(d.len() as int) =~= d);
                                assert(edges_upto(c, i + 1) == edges_upto(c, i as int)
                                    + activity_edges(c, i as int));
                                lemma_edges_upto_mono_len(c, i as int + 1, n as int);
                            }
                            return false;
                        }
                    }
                    j = j + 1;
                }
                assert(d.take(deps@.len() as int) =~= d);
            },
            None => {},
        }
        assert(edges_upto(c, i + 1) == edges_upto(c, i as int) + activity_edges(c, i as int));
        i = i + 1;
    }
    true
}

proof fn lemma_dep_edges_prefix_len(c: Seq<CoreView>, i: int, d: Seq<Seq<char>>, k: int)
    requires
        0 <= k <= d.len(),
    ensures
        dep_edges(c, i, d.take(k)).len() <= dep_edges(c, i, d).len(),
    decreases d.len() - k,
{
    if k < d.len() {
        lemma_dep_edges_prefix_len(c, i, d, k + 1);
        assert(d.take(k + 1).drop_last() =~= d.take(k));
    } else {
        assert(d.take(k) =~= d);
    }
}

proof fn lemma_edges_upto_mono_len(c: Seq<CoreView>, m: int, n: int)
    requires
        0 <= m <= n,
    ensures
        edges_upto(c, m).len() <= edges_upto(c, n).len(),
    decreases n - m,
{
    if m < n {
        lemma_edges_upto_mono_len(c, m + 1, n);
    }
}

/// The references to the cores of the activities.
fn core_refs(acts: &Vec<Activity>) -> (r: Vec<&ActivityCore>)
    ensures
        core_views(r@) == crate::runner::reduce::cores_of(crate::api::activities::views(acts@)),
{
    let mut r: Vec<&ActivityCore> = Vec::new();
    let mut i: usize = 0;
    while i < acts.len()
        invariant
            i <= acts@.len(),
            r@.len() == i,
            forall|k: int| 0 <= k < i ==> (#[trigger] r@[k])@ == acts@[k]@.core,
        decreases acts@.len() - i,
    {
        r.push(acts[i].get_core());
        i = i + 1;
    }
    assert(core_views(r@) =~= cores_of(crate::api::activities::views(acts@)));
    r
}

/// Whether the graph of the activities fits petgraph's 32-bit indices.
fn fits(state: &DefaultExecutionState) -> (r: bool)
    ensures
        r == graph_fits(state@),
{
    if state.activity_states.len() > 0xffff_ffff {
        return false;
    }
    let refs = core_refs(&state.activity_states);
    edges_fit(&refs)
}

/// Whether the graph still fits with one more activity added by the payload.
fn fits_with(state: &DefaultExecutionState, core: &ActivityCore, Ghost(added): Ghost<ActivityView>) -> (r: bool)
    requires
        added.core == core@,
    ensures
        r == graph_fits(state@.push(added)),
{
    if state.activity_states.len() >= 0xffff_ffff {
        return false;
    }
    let mut refs = core_refs(&state.activity_states);
    let ghost before = refs@;
    refs.push(core);
    assert(core_views(refs@) =~= core_views(before).push(core@));
    assert(cores_of(state@.push(added)) =~= cores_of(state@).push(added.core));
    assert(core_views(refs@) =~= cores_of(state@.push(added)));
    edges_fit(&refs)
}

/// Whether the activity with the id is present, in the given phase test, and
/// the execution has not stopped.
fn target_phase(state: &DefaultExecutionState, id: &str, running: bool) -> (r: bool)
    requires
        state.wf(),
    ensures
        r == (has_id(state@, id@) && (if running {
            state@[index_of(state@, id@)].phase is Running
        } else {
            state@[index_of(state@, id@)].phase is Ready
        }) && !stopped(state@)),
{
    match position(&state.activity_states, id) {
        None => false,
        Some(i) => {
            proof {
                lemma_index_of_unique(state@, i as int, id@);
            }
            let phase_ok = match &state.activity_states[i] {
                Activity::Sync(SyncActivity::Ready(_)) => !running,
                Activity::Async(AsyncActivity::Ready(_)) => !running,
                Activity::Sync(SyncActivity::Running(_)) => running,
                Activity::Async(AsyncActivity::Running(_)) => running,
                _ => false,
            };
            phase_ok && !state.is_stopped()
        },
    }
}

/// Whether an add event applies.
fn add_ok(state: &DefaultExecutionState, payload: &AddActivityPayload, is_async: bool) -> (r: bool)
    requires
        state.wf(),
    ensures
        r == add_applies(state@, *payload, is_async),
{
    if position(&state.activity_states, payload.id.as_str()).is_some() {
        return false;
    }
    if let Some(deps) = &payload.depends_on {
        if strings_contain(deps, payload.id.as_str()) {
            return false;
        }
    }
    let core = ActivityCore {
        id: payload.id.clone(),
        kind: payload.kind.clone(),
        config: crate::api::activities::clone_opt_value(&payload.config),
        depends_on: crate::text::clone_opt_strings(&payload.depends_on),
        attempt: 0,
        failure_count: 0,
        error_count: 0,
    };
    assert(core@ == added_core(*payload));
    fits_with(state, &core, Ghost(added_view(*payload, is_async)))
}

/// Whether the reducer accepts the event in the state: it panics on the others.
pub fn applies(state: &DefaultExecutionState, event: &Event) -> (r: bool)
    requires
        state.wf(),
    ensures
        r == event_applies(state@, *event),
{
    match event {
        Event::System(_) => true,
        Event::Activity(ae) => match ae {
            ActivityEvent::AddSync(p) => add_ok(state, p, false),
            ActivityEvent::AddAsync(p) => add_ok(state, p, true),
            ActivityEvent::Start(id) => target_phase(state, id.as_str(), false),
            ActivityEvent::Complete(p) => target_phase(state, p.id.as_str(), true) && fits(state),
            ActivityEvent::Failed(p) => target_phase(state, p.id.as_str(), true),
            ActivityEvent::Error(p) => target_phase(state, p.id.as_str(), true),
            ActivityEvent::Retry(_) => true,
        },
    }
}

/// Whether every event of the log applies after the events before it.
pub fn log_is_valid(event_stream: &EventStream) -> (r: bool)
    ensures
        r == log_applies(event_stream@),
{
    let ghost log = event_stream@;
    let mut state = DefaultExecutionState::new(None);
    assert(state@ =~= restore_view(log.take(0)));
    assert(log.take(0) =~= Seq::<Event>::empty());
    let mut i: usize = 0;
    while i < event_stream.len()
        invariant
            i <= log.len(),
            log == event_stream@,
            state.wf(),
            state@ == restore_view(log.take(i as int)),
            log_applies(log.take(i as int)),
        decreases log.len() - i,
    {
        assert(log.take(i + 1).drop_last() =~= log.take(i as int));
        assert(log.take(i + 1).last() == log[i as int]);
        if !applies(&state, &event_stream[i]) {
            proof {
                if log_applies(log) {
                    crate::runner::restore::lemma_log_applies_prefix(log, i as int);
                }
            }
            return false;
        }
        state = reduce(state, &event_stream[i]);
        i = i + 1;
    }
    assert(log.take(log.len() as int) =~= log);
    true
}

} // verus!
