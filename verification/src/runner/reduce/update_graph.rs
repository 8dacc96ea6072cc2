use crate::api::activities::{views, Activity, ActivityCore, SyncActivity, SyncNew};
use crate::api::execution::{has_id, id_at, ids_of, lemma_index_of_unique, position, unique_ids, DefaultExecutionState, ExecutionGraphRelation};
use crate::api::activities::{ActivityView, CoreView};
use crate::graph::{add_edge, add_node, graph_edges, graph_nodes, new_graph};
use crate::runner::reduce::{activity_edges, core_has, core_index, cores_of, dep_edges, dependency_met, deps_met, edges_upto, graph_fits, graph_matches, pending_sync, refresh_all, refresh_to};
use crate::text::strings_view;
use crate::api::activities::clone_opt_value;
use crate::runner::controller::{prior_output, resolve_prior_output};
use serde_json::Value;
use vstd::prelude::*;

verus! {

/// Rebuilds the execution graph from the current activities and re-evaluates
/// readiness for activities whose dependencies may have changed.
pub fn update_graph(execution_state: DefaultExecutionState) -> (r: DefaultExecutionState)
    requires
        execution_state.wf(),
        graph_fits(execution_state@),
    ensures
        r.wf(),
        r@ == refresh_all(execution_state@),
        r.activity_states@.len() == execution_state.activity_states@.len(),
        forall|j: int|
            0 <= j < execution_state@.len() && !pending_sync(execution_state@[j])
                ==> r.activity_states@[j] == execution_state.activity_states@[j],
        graph_matches(r.activity_graph, execution_state@),
        r.max_retries == execution_state.max_retries,
{
    let mut state = execution_state;
    let ghost s = state@;
    let ghost c = cores_of(s);
    let n = state.activity_states.len();

    // 1. Rebuild graph from scratch — it's derived state from the activities
    let mut graph = new_graph();
    let mut i: usize = 0;
    while i < n
        invariant
            i <= n,
            n == s.len(),
            s == state@,
            graph_fits(s),
            graph_nodes(graph) == ids_of(s).take(i as int),
            graph_edges(graph) == Seq::<(int, int)>::empty(),
        decreases n - i,
    {
        let id = state.activity_states[i].get_core().id.clone();
        add_node(&mut graph, id);
        assert(ids_of(s).take(i + 1) =~= ids_of(s).take(i as int).push(s[i as int].core.id));
        i = i + 1;
    }
    assert(ids_of(s).take(n as int) =~= ids_of(s));
    let mut i: usize = 0;
    while i < n
        invariant
            i <= n,
            n == s.len(),
            s == state@,
            c == cores_of(s),
            unique_ids(s),
            graph_fits(s),
            graph_nodes(graph) == ids_of(s),
            graph_edges(graph) == edges_upto(c, i as int),
        decreases n - i,
    {
        let a = &state.activity_states[i];
        assert(c[i as int] == a@.core);
        match &a.get_core().depends_on {
            Some(deps) => {
                let ghost d = strings_view(deps@);
                assert(c[i as int].depends_on == Some(d));
                let mut j: usize = 0;
                while j < deps.len()
                    invariant
                        j <= deps@.len(),
                        d == strings_view(deps@),
                        c[i as int].depends_on == Some(d),
                        i < n,
                        n == s.len(),
                        s == state@,
                        c == cores_of(s),
                        unique_ids(s),
                        graph_fits(s),
                        graph_nodes(graph) == ids_of(s),
                        graph_edges(graph) == edges_upto(c, i as int) + dep_edges(
                            c,
                            i as int,
                            d.take(j as int),
                        ),
                    decreases deps@.len() - j,
                {
                    proof {
                        assert(d.take(j + 1).drop_last() =~= d.take(j as int));
                        assert(d.take(j + 1).last() == d[j as int]);
                        lemma_dep_edges_prefix(c, i as int, d, j as int + 1);
                        lemma_edges_upto_mono(c, i as int + 1, n as int);
                        assert(edges_upto(c, i + 1) == edges_upto(c, i as int) + activity_edges(
                            c,
                            i as int,
                        ));
                        assert(d.take(d.len() as int) =~= d);
                    }
                    match position(&state.activity_states, deps[j].as_str()) {
                        Some(k) => {
                            proof {
                                lemma_core_index(s, k as int, d[j as int]);
                            }
                            add_edge(&mut graph, k, i, ExecutionGraphRelation::Precedes);
                        },
                        None => {
                            proof {
                                lemma_core_has(s, d[j as int]);
                            }
                        },
                    }
                    assert(graph_edges(graph) =~= edges_upto(c, i as int) + dep_edges(
                        c,
                        i as int,
                        d.take(j + 1),
                    ));
                    j = j + 1;
                }
                assert(d.take(deps@.len() as int) =~= d);
            },
            None => {
                assert(activity_edges(c, i as int) =~= Seq::<(int, int)>::empty());
            },
        }
        assert(graph_edges(graph) =~= edges_upto(c, i + 1));
        i = i + 1;
    }
    state.activity_graph = graph;

    // 2. Re-evaluate readiness for activities that aren't running or terminal
    let mut flags: Vec<bool> = Vec::new();
    let mut inputs: Vec<Option<Value>> = Vec::new();
    let mut i: usize = 0;
    while i < n
        invariant
            i <= n,
            n == s.len(),
            s == state@,
            unique_ids(s),
            state.wf(),
            flags@.len() == i,
            inputs@.len() == i,
            forall|k: int| 0 <= k < i ==> #[trigger] flags@[k] == deps_met(s, s[k].core),
            forall|k: int| 0 <= k < i ==> #[trigger] inputs@[k] == prior_output(s, s[k].core.id),
        decreases n - i,
    {
        let met = dependencies_met(&state.activity_states, state.activity_states[i].get_core());
        flags.push(met);
        let input = resolve_prior_output(&state, state.activity_states[i].id());
        inputs.push(input);
        i = i + 1;
    }
    let ghost orig = state.activity_states@;
    let mut old: Vec<Activity> = Vec::new();
    std::mem::swap(&mut old, &mut state.activity_states);
    let mut acts: Vec<Activity> = Vec::new();
    let mut k: usize = 0;
    while k < n
        invariant
            k <= n,
            n == s.len(),
            s == views(orig),
            old@ == orig.subrange(k as int, n as int),
            flags@.len() == n,
            forall|x: int| 0 <= x < n ==> #[trigger] flags@[x] == deps_met(s, s[x].core),
            inputs@.len() == n,
            forall|x: int| 0 <= x < n ==> #[trigger] inputs@[x] == prior_output(s, s[x].core.id),
            views(acts@) == refresh_all(s).take(k as int),
            acts@.len() == k,
            forall|x: int| 0 <= x < k && !pending_sync(s[x]) ==> acts@[x] == orig[x],
        decreases n - k,
    {
        let ghost old_old = old@;
        let a = old.remove(0);
        assert(a == orig[k as int]);
        let b = refresh_activity(a, flags[k], clone_opt_value(&inputs[k]));
        assert(s[k as int] == a@);
        assert(flags@[k as int] == deps_met(s, s[k as int].core));
        assert(inputs@[k as int] == prior_output(s, s[k as int].core.id));
        assert(b@ == refresh_all(s)[k as int]);
        let ghost acts_before = acts@;
        acts.push(b);
        assert(views(acts@) =~= views(acts_before).push(b@));
        assert(refresh_all(s).take(k + 1) =~= refresh_all(s).take(k as int).push(
            refresh_all(s)[k as int],
        ));
        assert(views(acts@) =~= refresh_all(s).take(k + 1));
        assert(old@ =~= orig.subrange(k + 1, n as int));
        k = k + 1;
    }
    assert(refresh_all(s).take(n as int) =~= refresh_all(s));
    state.activity_states = acts;
    proof {
        let after = state@;
        assert forall|x: int, y: int|
            0 <= x < after.len() && 0 <= y < after.len() && x != y implies after[x].core.id
            != after[y].core.id by {
            assert(after[x].core.id == s[x].core.id);
            assert(after[y].core.id == s[y].core.id);
        }
    }
    state
}

/// A pending synchronous activity rebuilt from its core: ready when `met`,
/// waiting on its dependencies otherwise; any other activity as it is.
fn refresh_activity(a: Activity, met: bool, input: Option<Value>) -> (r: Activity)
    ensures
        r@ == refresh_to(a@, met, input),
        !pending_sync(a@) ==> r == a,
{
    match a {
        Activity::Sync(SyncActivity::New(n)) => pending_from_core(n.core, met, input),
        Activity::Sync(SyncActivity::UnfulfilledDependencies(n)) => pending_from_core(n.core, met, input),
        Activity::Sync(SyncActivity::Ready(r)) => pending_from_core(r.core, met, input),
        other => other,
    }
}

fn pending_from_core(core: ActivityCore, met: bool, input: Option<Value>) -> (r: Activity)
    ensures
        r@ == (ActivityView {
            is_async: false,
            phase: if met {
                crate::api::activities::Phase::Ready
            } else {
                crate::api::activities::Phase::UnfulfilledDependencies
            },
            core: core@,
            input: if met {
                input
            } else {
                None
            },
            output: None,
            failure: None,
        }),
{
    if met {
        Activity::from(SyncActivity::from(SyncNew::new(core).make_ready(input)))
    } else {
        Activity::from(SyncActivity::UnfulfilledDependencies(SyncNew::new(core)))
    }
}

/// Whether every dependency of `core` is present among `acts` and completed.
fn dependencies_met(acts: &Vec<Activity>, core: &ActivityCore) -> (r: bool)
    requires
        unique_ids(views(acts@)),
    ensures
        r == deps_met(views(acts@), core@),
{
    let ghost s = views(acts@);
    match &core.depends_on {
        None => true,
        Some(deps) => {
            let ghost d = strings_view(deps@);
            assert(core@.depends_on == Some(d));
            assert(d.len() == deps@.len());
            assert(deps_met(s, core@) == (forall|x: int| 0 <= x < d.len() ==> dependency_met(s, #[trigger] d[x])));
            let mut j: usize = 0;
            while j < deps.len()
                invariant
                    j <= deps@.len(),
                    d == strings_view(deps@),
                    core@.depends_on == Some(d),
                    d.len() == deps@.len(),
                    deps_met(s, core@) == (forall|x: int|
                        0 <= x < d.len() ==> dependency_met(s, #[trigger] d[x])),
                    s == views(acts@),
                    unique_ids(s),
                    forall|x: int| 0 <= x < j ==> dependency_met(s, #[trigger] d[x]),
                decreases deps@.len() - j,
            {
                match position(acts, deps[j].as_str()) {
                    Some(k) => {
                        if !acts[k].is_completed() {
                            proof {
                                assert forall|x: int| !(id_at(s, x, d[j as int]) && #[trigger] s[x].completed()) by {
                                    if id_at(s, x, d[j as int]) {
                                        lemma_index_of_unique(s, x, d[j as int]);
                                        lemma_index_of_unique(s, k as int, d[j as int]);
                                    }
                                }
                                assert(!dependency_met(s, d[j as int]));
                                assert(!deps_met(s, core@)) by {
                                    assert(0 <= j < d.len());
                                    assert(!dependency_met(s, d[j as int]));
                                }
                            }
                            return false;
                        }
                        assert(id_at(s, k as int, d[j as int]) && s[k as int].completed());
                    },
                    None => {
                        assert(!dependency_met(s, d[j as int]));
                        assert(!deps_met(s, core@)) by {
                            assert(0 <= j < d.len());
                            assert(!dependency_met(s, d[j as int]));
                        }
                        return false;
                    },
                }
                j = j + 1;
            }
            true
        },
    }
}

/// With unique ids, the core index of an id is the one place where it occurs.
proof fn lemma_core_index(s: Seq<ActivityView>, k: int, id: Seq<char>)
    requires
        unique_ids(s),
        id_at(s, k, id),
    ensures
        core_has(cores_of(s), id),
        core_index(cores_of(s), id) == k,
{
    let c = cores_of(s);
    assert(c[k].id == id);
    let m = core_index(c, id);
    assert(0 <= m < c.len() && c[m].id == id);
    assert(id_at(s, m, id));
}

/// An id that no activity has is in no core.
proof fn lemma_core_has(s: Seq<ActivityView>, id: Seq<char>)
    requires
        !has_id(s, id),
    ensures
        !core_has(cores_of(s), id),
{
    if core_has(cores_of(s), id) {
        let m = choose|m: int| 0 <= m < cores_of(s).len() && cores_of(s)[m].id == id;
        assert(id_at(s, m, id));
    }
}

/// The edges of a prefix of the dependencies are no more than those of all of them.
proof fn lemma_dep_edges_prefix(c: Seq<CoreView>, i: int, d: Seq<Seq<char>>, k: int)
    requires
        0 <= k <= d.len(),
    ensures
        dep_edges(c, i, d.take(k)).len() <= dep_edges(c, i, d).len(),
    decreases d.len() - k,
{
    if k < d.len() {
        lemma_dep_edges_prefix(c, i, d, k + 1);
        assert(d.take(k + 1).drop_last() =~= d.take(k));
    } else {
        assert(d.take(k) =~= d);
    }
}

/// The edges into a prefix of the activities are no more than those into a longer one.
proof fn lemma_edges_upto_mono(c: Seq<CoreView>, m: int, n: int)
    requires
        0 <= m <= n,
    ensures
        edges_upto(c, m).len() <= edges_upto(c, n).len(),
    decreases n - m,
{
    if m < n {
        lemma_edges_upto_mono(c, m + 1, n);
    }
}

} // verus!
