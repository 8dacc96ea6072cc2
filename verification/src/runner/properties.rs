//! What holds of every execution: replaying events, closed activities, the
//! dependencies of started activities, and the registry.
use crate::api::activities::{
    Activity, ActivityEvent, ActivityView, AddActivityPayload, AsyncActivity, CompletePayload,
    FailurePayload, SyncActivity,
};
use crate::text::{opt_strings_view, strings_view};
use crate::api::events::Event;
use crate::api::execution::{
    has_id, id_at, ids_of, index_of, lemma_index_of_unique, status_of, unique_ids,
    DefaultExecutionState,
};
use crate::runner::policy::retry_allowed;
use crate::runner::scheduler::{first_runnable, none_runnable};
use crate::runner::controller::prior_output;
use crate::runner::reduce::{
    added_view, cores_of, dependency_met, deps_met, event_applies, lemma_refresh_keeps_cores, pending_sync,
    reduce_view, refresh_all, refreshed,
};
use crate::runner::registry::{is_registered, lookup, registered_at, lemma_registered_at_unique};
use crate::runner::restore::{log_applies, restore_view};
use vstd::prelude::*;

verus! {

/// The activities after replaying `log` on the activities `s`.
pub open spec fn replay_view(s: Seq<ActivityView>, log: Seq<Event>) -> Seq<ActivityView>
    decreases log.len(),
{
    if log.len() == 0 {
        s
    } else {
        reduce_view(replay_view(s, log.drop_last()), log.last())
    }
}

/// Restoring a log is replaying it on an empty execution.
pub proof fn lemma_restore_is_replay(log: Seq<Event>)
    ensures
        restore_view(log) == replay_view(Seq::empty(), log),
    decreases log.len(),
{
    if log.len() > 0 {
        lemma_restore_is_replay(log.drop_last());
    }
}

/// Replay goes event by event: restoring a log made of two parts is replaying
/// the second part on the state restored from the first, and a log that applies
/// has a first part that applies.
pub proof fn lemma_restore_concat(a: Seq<Event>, b: Seq<Event>)
    ensures
        restore_view(a + b) == replay_view(restore_view(a), b),
        log_applies(a + b) ==> log_applies(a),
    decreases b.len(),
{
    if b.len() == 0 {
        assert(a + b =~= a);
    } else {
        assert((a + b).drop_last() =~= a + b.drop_last());
        assert((a + b).last() == b.last());
        lemma_restore_concat(a, b.drop_last());
    }
}

/// An activity that is closed is never the target of an event that applies.
pub open spec fn closed_kept(s: Seq<ActivityView>, t: Seq<ActivityView>) -> bool {
    &&& s.len() <= t.len()
    &&& forall|i: int| 0 <= i < s.len() && (#[trigger] s[i]).closed() ==> t[i] == s[i]
}

/// Keeping closed activities carries over from state to state.
pub proof fn lemma_closed_kept_trans(a: Seq<ActivityView>, b: Seq<ActivityView>, c: Seq<ActivityView>)
    requires
        closed_kept(a, b),
        closed_kept(b, c),
    ensures
        closed_kept(a, c),
{
    assert forall|i: int| 0 <= i < a.len() && (#[trigger] a[i]).closed() implies c[i] == a[i] by {
        assert(b[i] == a[i]);
    }
}

/// Completed, failed and errored activities are final: an event that applies
/// leaves every one of them as it is, in its place, and removes no activity.
pub proof fn lemma_closed_activities_stay(s: Seq<ActivityView>, e: Event)
    requires
        event_applies(s, e),
    ensures
        closed_kept(s, reduce_view(s, e)),
        ids_of(s) == ids_of(reduce_view(s, e)).take(s.len() as int),
{
    let t = reduce_view(s, e);
    match e {
        Event::Activity(ae) => match ae {
            ActivityEvent::AddSync(p) => {
                assert(ids_of(t).take(s.len() as int) =~= ids_of(s));
            },
            ActivityEvent::AddAsync(p) => {
                assert(ids_of(t).take(s.len() as int) =~= ids_of(s));
            },
            ActivityEvent::Complete(p) => {
                assert(ids_of(t).take(s.len() as int) =~= ids_of(s));
            },
            _ => {
                assert(ids_of(t).take(s.len() as int) =~= ids_of(s));
            },
        },
        Event::System(_) => {
            assert(ids_of(t).take(s.len() as int) =~= ids_of(s));
        },
    }
}

/// Replaying more events keeps every closed activity as it is: activities
/// already completed are not run again.
pub proof fn lemma_closed_activities_stay_on_replay(s: Seq<ActivityView>, log: Seq<Event>)
    requires
        log_applies_from(s, log),
    ensures
        closed_kept(s, replay_view(s, log)),
    decreases log.len(),
{
    if log.len() > 0 {
        lemma_closed_activities_stay_on_replay(s, log.drop_last());
        let m = replay_view(s, log.drop_last());
        lemma_closed_activities_stay(m, log.last());
    }
}

/// Every event of `log` applies to the state that replaying the events before it on `s` gives.
pub open spec fn log_applies_from(s: Seq<ActivityView>, log: Seq<Event>) -> bool
    decreases log.len(),
{
    if log.len() == 0 {
        true
    } else {
        log_applies_from(s, log.drop_last()) && event_applies(
            replay_view(s, log.drop_last()),
            log.last(),
        )
    }
}

/// A log that applies from an empty execution applies in the sense of `log_applies`.
pub proof fn lemma_log_applies_from_empty(log: Seq<Event>)
    ensures
        log_applies(log) == log_applies_from(Seq::empty(), log),
    decreases log.len(),
{
    if log.len() > 0 {
        lemma_log_applies_from_empty(log.drop_last());
        lemma_restore_is_replay(log.drop_last());
    }
}

/// A synchronous activity that has left the new and waiting phases had all its
/// dependencies completed.
pub open spec fn deps_respected(s: Seq<ActivityView>) -> bool {
    forall|i: int|
        0 <= i < s.len() && !s[i].is_async && !(s[i].phase is New) && !(
        s[i].phase is UnfulfilledDependencies) ==> deps_met(s, (#[trigger] s[i]).core)
}

/// Dependencies met in `s` stay met in a state that keeps its closed activities.
proof fn lemma_deps_met_mono(s: Seq<ActivityView>, t: Seq<ActivityView>, c: crate::api::activities::CoreView)
    requires
        closed_kept(s, t),
        deps_met(s, c),
    ensures
        deps_met(t, c),
{
    match c.depends_on {
        Some(d) => {
            assert forall|j: int| 0 <= j < d.len() implies dependency_met(t, #[trigger] d[j]) by {
                assert(dependency_met(s, d[j]));
                let i = choose|i: int| id_at(s, i, d[j]) && #[trigger] s[i].completed();
                assert(s[i].closed());
                assert(t[i] == s[i]);
                assert(id_at(t, i, d[j]) && t[i].completed());
            }
        },
        None => {},
    }
}

/// Re-evaluating readiness keeps the closed activities, and its ready
/// activities have their dependencies met.
proof fn lemma_refresh_respects(u: Seq<ActivityView>)
    requires
        forall|i: int|
            0 <= i < u.len() && !u[i].is_async && !pending_sync(u[i]) ==> deps_met(
                u,
                (#[trigger] u[i]).core,
            ),
    ensures
        closed_kept(u, refresh_all(u)),
        deps_respected(refresh_all(u)),
{
    let t = refresh_all(u);
    assert(closed_kept(u, t));
    assert forall|i: int|
        0 <= i < t.len() && !t[i].is_async && !(t[i].phase is New) && !(
        t[i].phase is UnfulfilledDependencies) implies deps_met(t, (#[trigger] t[i]).core) by {
        assert(t[i].core == u[i].core);
        assert(deps_met(u, u[i].core));
        lemma_deps_met_mono(u, t, u[i].core);
    }
}

/// An event that applies keeps the dependencies of started synchronous
/// activities respected: an activity is started only after everything it
/// depends on has completed.
pub proof fn lemma_reduce_respects_deps(s: Seq<ActivityView>, e: Event)
    requires
        event_applies(s, e),
        deps_respected(s),
    ensures
        deps_respected(reduce_view(s, e)),
{
    lemma_closed_activities_stay(s, e);
    let t = reduce_view(s, e);
    match e {
        Event::Activity(ae) => match ae {
            ActivityEvent::AddSync(p) => {
                let u = s.push(crate::runner::reduce::added_view(p, false));
                assert(closed_kept(s, u));
                assert forall|i: int|
                    0 <= i < u.len() && !u[i].is_async && !pending_sync(u[i]) implies deps_met(
                    u,
                    (#[trigger] u[i]).core,
                ) by {
                    assert(i < s.len());
                    assert(u[i] == s[i]);
                    lemma_deps_met_mono(s, u, s[i].core);
                }
                lemma_refresh_respects(u);
            },
            ActivityEvent::AddAsync(p) => {
                let u = s.push(crate::runner::reduce::added_view(p, true));
                assert(closed_kept(s, u));
                assert forall|i: int|
                    0 <= i < u.len() && !u[i].is_async && !pending_sync(u[i]) implies deps_met(
                    u,
                    (#[trigger] u[i]).core,
                ) by {
                    assert(i < s.len());
                    assert(u[i] == s[i]);
                    lemma_deps_met_mono(s, u, s[i].core);
                }
                lemma_refresh_respects(u);
            },
            ActivityEvent::Complete(p) => {
                let k = index_of(s, p.id@);
                let u = s.update(k, crate::runner::reduce::completed_with(s[k], p.output));
                assert(closed_kept(s, u));
                assert forall|i: int|
                    0 <= i < u.len() && !u[i].is_async && !pending_sync(u[i]) implies deps_met(
                    u,
                    (#[trigger] u[i]).core,
                ) by {
                    assert(u[i].core == s[i].core);
                    assert(deps_met(s, s[i].core));
                    lemma_deps_met_mono(s, u, s[i].core);
                }
                lemma_refresh_respects(u);
            },
            _ => {
                assert forall|i: int|
                    0 <= i < t.len() && !t[i].is_async && !(t[i].phase is New) && !(
                    t[i].phase is UnfulfilledDependencies) implies deps_met(
                    t,
                    (#[trigger] t[i]).core,
                ) by {
                    assert(t[i].core == s[i].core);
                    assert(deps_met(s, s[i].core));
                    lemma_deps_met_mono(s, t, s[i].core);
                }
            },
        },
        Event::System(_) => {},
    }
}

/// In every state restored from a log that applies, a synchronous activity is
/// ready, running or closed only when all its dependencies have completed.
pub proof fn lemma_restore_respects_deps(log: Seq<Event>)
    requires
        log_applies(log),
    ensures
        deps_respected(restore_view(log)),
    decreases log.len(),
{
    if log.len() > 0 {
        lemma_restore_respects_deps(log.drop_last());
        lemma_reduce_respects_deps(restore_view(log.drop_last()), log.last());
    }
}

/// Re-evaluating readiness twice gives what re-evaluating it once gives: every
/// activity that becomes ready or waits, with the input it is given, stays so,
/// and the ids and cores, which the dependency graph is built from, are kept.
pub proof fn lemma_refresh_idempotent(s: Seq<ActivityView>)
    requires
        unique_ids(s),
    ensures
        refresh_all(refresh_all(s)) == refresh_all(s),
        ids_of(refresh_all(s)) == ids_of(s),
        cores_of(refresh_all(s)) == cores_of(s),
{
    let t = refresh_all(s);
    lemma_refresh_keeps_cores(s);
    assert(unique_ids(t)) by {
        assert forall|x: int, y: int|
            0 <= x < t.len() && 0 <= y < t.len() && x != y implies t[x].core.id != t[y].core.id by {
            assert(t[x].core.id == s[x].core.id);
            assert(t[y].core.id == s[y].core.id);
        }
    }
    assert forall|i: int| 0 <= i < t.len() implies #[trigger] refreshed(t, t[i]) == t[i] by {
        let c = s[i].core;
        assert(t[i].core == c);
        // completed activities are the same in both
        assert forall|d: Seq<char>| dependency_met(t, d) == dependency_met(s, d) by {
            if dependency_met(s, d) {
                let k = choose|k: int| id_at(s, k, d) && #[trigger] s[k].completed();
                assert(t[k] == s[k]);
                assert(id_at(t, k, d) && t[k].completed());
            }
            if dependency_met(t, d) {
                let k = choose|k: int| id_at(t, k, d) && #[trigger] t[k].completed();
                assert(s[k].completed());
                assert(id_at(s, k, d));
            }
        }
        assert(deps_met(t, c) == deps_met(s, c));
        // the activity before keeps its place, and is completed in both or in neither
        lemma_index_of_unique(s, i, c.id);
        lemma_index_of_unique(t, i, c.id);
        assert(id_at(s, i, c.id) && id_at(t, i, c.id));
        if i > 0 {
            assert(t[i - 1] == refreshed(s, s[i - 1]));
            if pending_sync(s[i - 1]) {
                assert(!t[i - 1].completed() && !s[i - 1].completed());
            } else {
                assert(t[i - 1] == s[i - 1]);
            }
        }
        assert(prior_output(t, c.id) == prior_output(s, c.id));
    }
    assert(refresh_all(t) =~= t);
}

/// The retry policy offers another attempt exactly to an activity that failed or
/// errored and has had fewer attempts than the execution allows.
pub proof fn lemma_retry_offered(state: DefaultExecutionState, id: Seq<char>, i: int)
    requires
        state.wf(),
        id_at(state@, i, id),
    ensures
        retry_allowed(state, id) <==> ((state@[i].phase is Failed || state@[i].phase is Error)
            && state@[i].core.attempt < state.max_retries),
{
    lemma_index_of_unique(state@, i, id);
}

/// An activity that is not present is never offered a retry.
pub proof fn lemma_retry_needs_activity(state: DefaultExecutionState, id: Seq<char>)
    requires
        !has_id(state@, id),
    ensures
        !retry_allowed(state, id),
{
}

/// The activities the scheduler may start: ready ones of either kind, and
/// asynchronous ones that are already running.
pub proof fn lemma_runnable_activities(a: Activity)
    ensures
        a@.runnable() <==> (a matches Activity::Sync(SyncActivity::Ready(_)) || a matches Activity::Async(
            AsyncActivity::Ready(_),
        ) || a matches Activity::Async(AsyncActivity::Running(_))),
        a@.runnable() <==> (a@.phase is Ready || (a@.is_async && a@.phase is Running)),
{
}

/// An asynchronous activity that is running, with no ready activity and no
/// running asynchronous one before it, is the one the scheduler picks.
pub proof fn lemma_scheduler_picks_running_async(s: Seq<ActivityView>, i: int)
    requires
        0 <= i < s.len(),
        s[i].is_async,
        s[i].phase is Running,
        forall|j: int|
            0 <= j < i ==> !((#[trigger] s[j]).phase is Ready) && !(s[j].is_async
                && s[j].phase is Running),
    ensures
        first_runnable(s, i),
        !none_runnable(s),
{
}

/// The prior output of the activity at position `p`: the output of the activity
/// just before it when that one has completed, and none otherwise, whatever the
/// activity's own configuration.
pub proof fn lemma_prior_output_at(s: Seq<ActivityView>, p: int)
    requires
        unique_ids(s),
        0 <= p < s.len(),
    ensures
        p > 0 && s[p - 1].phase is Completed ==> prior_output(s, s[p].core.id) == s[p - 1].output,
        p == 0 || !(s[p - 1].phase is Completed) ==> prior_output(s, s[p].core.id) is None,
{
    lemma_index_of_unique(s, p, s[p].core.id);
}

/// A pending synchronous activity whose dependencies are met becomes ready with
/// the output of the completed activity just before it as input.
pub proof fn lemma_ready_input_is_prior_output(s: Seq<ActivityView>, p: int)
    requires
        unique_ids(s),
        0 < p < s.len(),
        !s[p].is_async,
        s[p].phase is New || s[p].phase is UnfulfilledDependencies || s[p].phase is Ready,
        deps_met(s, s[p].core),
        s[p - 1].phase is Completed,
    ensures
        refresh_all(s)[p].phase is Ready,
        refresh_all(s)[p].input == s[p - 1].output,
{
    lemma_prior_output_at(s, p);
}

/// A Complete event that applies leaves its activity completed with exactly the
/// output the event carries, none when it carries none, and its core and input
/// as they were.
pub proof fn lemma_complete_records_output(s: Seq<ActivityView>, p: CompletePayload)
    requires
        unique_ids(s),
        event_applies(s, Event::Activity(ActivityEvent::Complete(p))),
    ensures
        ({
            let k = index_of(s, p.id@);
            let t = reduce_view(s, Event::Activity(ActivityEvent::Complete(p)));
            &&& t.len() == s.len()
            &&& t[k].phase is Completed
            &&& t[k].output == p.output
            &&& t[k].core == s[k].core
            &&& t[k].input == s[k].input
        }),
{
}

/// What an activity's phase predicates say of the activity itself: completed,
/// failed or errored exactly in those variants, of either kind.
pub proof fn lemma_activity_phases(a: Activity)
    ensures
        a@.completed() <==> (a matches Activity::Sync(SyncActivity::Completed(_))
            || a matches Activity::Async(AsyncActivity::Completed(_))),
        a@.failed() <==> (a matches Activity::Sync(SyncActivity::Failed(_))
            || a matches Activity::Async(AsyncActivity::Failed(_))),
        a@.errored() <==> (a matches Activity::Sync(SyncActivity::Error(_))
            || a matches Activity::Async(AsyncActivity::Error(_))),
        a@.closed() <==> (a@.phase is Completed || a@.phase is Failed || a@.phase is Error),
        a@.is_async <==> a is Async,
{
}

/// The status of an execution: new when it has no activity, finished when all
/// of them completed, otherwise failed when one failed, otherwise in error when
/// one errored, and running otherwise.
pub proof fn lemma_status_cases(s: Seq<ActivityView>)
    ensures
        s.len() == 0 ==> status_of(s) is New,
        s.len() > 0 && (forall|i: int| 0 <= i < s.len() ==> (#[trigger] s[i]).phase is Completed)
            ==> status_of(s) is Finished,
        (exists|i: int| 0 <= i < s.len() && (#[trigger] s[i]).phase is Failed) ==> status_of(
            s,
        ) is Failed,
        (exists|i: int| 0 <= i < s.len() && (#[trigger] s[i]).phase is Error) && !(exists|i: int|
            0 <= i < s.len() && (#[trigger] s[i]).phase is Failed) ==> status_of(s) is Error,
        s.len() > 0 && (exists|i: int| 0 <= i < s.len() && !((#[trigger] s[i]).phase is Completed))
            && (forall|i: int| 0 <= i < s.len() ==> !((#[trigger] s[i]).phase is Failed) && !(
        s[i].phase is Error)) ==> status_of(s) is Running,
{
    if exists|i: int| 0 <= i < s.len() && (#[trigger] s[i]).phase is Failed {
        let i = choose|i: int| 0 <= i < s.len() && (#[trigger] s[i]).phase is Failed;
        assert(!s[i].completed());
        assert(s[i].failed());
    }
    if exists|i: int| 0 <= i < s.len() && (#[trigger] s[i]).phase is Error {
        let i = choose|i: int| 0 <= i < s.len() && (#[trigger] s[i]).phase is Error;
        assert(!s[i].completed());
        assert(s[i].errored());
        if !(exists|j: int| 0 <= j < s.len() && (#[trigger] s[j]).phase is Failed) {
            assert(!(exists|j: int| 0 <= j < s.len() && #[trigger] s[j].failed()));
        }
    }
    if s.len() > 0 && (exists|i: int| 0 <= i < s.len() && !((#[trigger] s[i]).phase is Completed))
        && (forall|i: int| 0 <= i < s.len() ==> !((#[trigger] s[i]).phase is Failed) && !(
    s[i].phase is Error)) {
        let i = choose|i: int| 0 <= i < s.len() && !((#[trigger] s[i]).phase is Completed);
        assert(!s[i].completed());
        assert(!(exists|j: int| 0 <= j < s.len() && #[trigger] s[j].failed()));
        assert(!(exists|j: int| 0 <= j < s.len() && #[trigger] s[j].errored()));
    }
}

/// A Start event that applies runs its activity: running, with its core; a
/// synchronous one keeps the input it was made ready with, an asynchronous one
/// gets the output of the completed activity just before it. The others stay.
pub proof fn lemma_start_runs(s: Seq<ActivityView>, id: String)
    requires
        unique_ids(s),
        event_applies(s, Event::Activity(ActivityEvent::Start(id))),
    ensures
        ({
            let k = index_of(s, id@);
            let t = reduce_view(s, Event::Activity(ActivityEvent::Start(id)));
            &&& t.len() == s.len()
            &&& t[k].phase is Running
            &&& t[k].core == s[k].core
            &&& t[k].is_async == s[k].is_async
            &&& !s[k].is_async ==> t[k].input == s[k].input
            &&& s[k].is_async && k > 0 && s[k - 1].phase is Completed ==> t[k].input == s[k - 1].output
            &&& s[k].is_async && (k == 0 || !(s[k - 1].phase is Completed)) ==> t[k].input is None
            &&& forall|j: int| 0 <= j < s.len() && j != k ==> #[trigger] t[j] == s[j]
        }),
{
    let k = index_of(s, id@);
    lemma_prior_output_at(s, k);
}

/// A Failed or Error event that applies closes its activity in that phase, with
/// the reason as its one failure message (none without a reason), keeping its
/// core and input; the others stay.
pub proof fn lemma_failure_records_reason(s: Seq<ActivityView>, p: FailurePayload, errs: bool)
    requires
        event_applies(
            s,
            if errs {
                Event::Activity(ActivityEvent::Error(p))
            } else {
                Event::Activity(ActivityEvent::Failed(p))
            },
        ),
    ensures
        ({
            let k = index_of(s, p.id@);
            let e = if errs {
                Event::Activity(ActivityEvent::Error(p))
            } else {
                Event::Activity(ActivityEvent::Failed(p))
            };
            let t = reduce_view(s, e);
            &&& t.len() == s.len()
            &&& errs ==> t[k].phase is Error
            &&& !errs ==> t[k].phase is Failed
            &&& t[k].core == s[k].core
            &&& t[k].input == s[k].input
            &&& t[k].is_async == s[k].is_async
            &&& (p.reason matches Some(r) ==> t[k].failure == Some(seq![r@]))
            &&& (p.reason is None ==> t[k].failure is None)
            &&& forall|j: int| 0 <= j < s.len() && j != k ==> #[trigger] t[j] == s[j]
        }),
{
}

/// Some activity of `s` with the id has completed.
pub open spec fn has_completed(s: Seq<ActivityView>, id: Seq<char>) -> bool {
    exists|j: int| 0 <= j < s.len() && (#[trigger] s[j]).core.id == id && s[j].phase is Completed
}

/// An add event that applies puts a new activity last, with the payload's id,
/// kind, configuration and dependencies and every counter at zero. An
/// asynchronous one is ready; a synchronous one is ready with no input when
/// each of its dependencies names a completed activity, and waits otherwise.
pub proof fn lemma_add_appends(s: Seq<ActivityView>, p: AddActivityPayload, is_async: bool)
    requires
        unique_ids(s),
        event_applies(
            s,
            if is_async {
                Event::Activity(ActivityEvent::AddAsync(p))
            } else {
                Event::Activity(ActivityEvent::AddSync(p))
            },
        ),
    ensures
        ({
            let e = if is_async {
                Event::Activity(ActivityEvent::AddAsync(p))
            } else {
                Event::Activity(ActivityEvent::AddSync(p))
            };
            let t = reduce_view(s, e);
            let n = s.len() as int;
            let ready_deps = match p.depends_on {
                None => true,
                Some(d) => forall|x: int| 0 <= x < d@.len() ==> has_completed(s, (#[trigger] d@[x])@),
            };
            &&& t.len() == n + 1
            &&& t[n].is_async == is_async
            &&& t[n].core.id == p.id@
            &&& t[n].core.kind == p.kind@
            &&& t[n].core.config == p.config
            &&& t[n].core.depends_on == opt_strings_view(p.depends_on)
            &&& t[n].core.attempt == 0 && t[n].core.failure_count == 0 && t[n].core.error_count == 0
            &&& is_async ==> t[n].phase is Ready
            &&& !is_async && ready_deps ==> t[n].phase is Ready
            &&& !is_async && !ready_deps ==> t[n].phase is UnfulfilledDependencies
            &&& t[n].output is None && t[n].failure is None
            &&& forall|j: int| 0 <= j < n && !pending_sync(s[j]) ==> #[trigger] t[j] == s[j]
        }),
{
    let a = added_view(p, is_async);
    let u = s.push(a);
    let n = s.len() as int;
    assert(u[n] == a);
    if !is_async {
        match p.depends_on {
            None => {},
            Some(d) => {
                let dv = strings_view(d@);
                assert(a.core.depends_on == Some(dv));
                // the new activity is not completed, so a dependency is met in `u` exactly when in `s`
                assert forall|dd: Seq<char>| #[trigger] dependency_met(u, dd) == has_completed(s, dd) by {
                    if dependency_met(u, dd) {
                        let j = choose|j: int| id_at(u, j, dd) && #[trigger] u[j].completed();
                        assert(j != n);
                        assert(u[j] == s[j]);
                    }
                    if exists|j: int| 0 <= j < s.len() && (#[trigger] s[j]).core.id == dd && s[j].phase is Completed {
                        let j = choose|j: int| 0 <= j < s.len() && (#[trigger] s[j]).core.id == dd && s[j].phase is Completed;
                        assert(u[j] == s[j]);
                        assert(id_at(u, j, dd) && u[j].completed());
                    }
                }
                assert forall|x: int| 0 <= x < d@.len() implies #[trigger] dv[x] == d@[x]@ by {}
                let ready_deps = forall|x: int| 0 <= x < d@.len() ==> has_completed(s, (#[trigger] d@[x])@);
                assert(deps_met(u, a.core) == ready_deps) by {
                    if deps_met(u, a.core) {
                        assert forall|x: int| 0 <= x < d@.len() implies has_completed(s, (#[trigger] d@[x])@) by {
                            assert(dv[x] == d@[x]@);
                            assert(dependency_met(u, dv[x]));
                        }
                    }
                    if ready_deps {
                        assert forall|x: int| 0 <= x < dv.len() implies dependency_met(u, #[trigger] dv[x]) by {
                            assert(dv[x] == d@[x]@);
                            assert(has_completed(s, d@[x]@));
                        }
                    }
                }
            },
        }
    }
    let t = refresh_all(u);
    assert(t[n] == refreshed(u, a));
    assert forall|j: int| 0 <= j < n && !pending_sync(s[j]) implies #[trigger] t[j] == s[j] by {
        assert(u[j] == s[j]);
        assert(t[j] == refreshed(u, u[j]));
    }
}

/// A module registered under a new id is the one found under that id.
pub proof fn lemma_register_then_lookup<M>(v: Seq<(Seq<char>, M)>, id: Seq<char>, m: M)
    requires
        !is_registered(v, id),
    ensures
        lookup(v.push((id, m)), id) == Some(m),
        forall|other: Seq<char>| other != id ==> lookup(v.push((id, m)), other) == lookup(v, other),
{
    let w = v.push((id, m));
    assert(w[v.len() as int].0 == id);
    assert(registered_at(w, v.len() as int, id)) by {
        assert forall|j: int| 0 <= j < v.len() implies (#[trigger] w[j]).0 != id by {
            assert(w[j] == v[j]);
        }
    }
    let k = choose|k: int| registered_at(w, k, id);
    lemma_registered_at_unique(w, k, v.len() as int, id);
    assert forall|other: Seq<char>| other != id implies lookup(w, other) == lookup(v, other) by {
        if is_registered(v, other) {
            crate::runner::registry::lemma_first_registered(v, other);
            let i = choose|i: int| registered_at(v, i, other);
            assert(registered_at(w, i, other)) by {
                assert forall|j: int| 0 <= j < i implies (#[trigger] w[j]).0 != other by {
                    assert(w[j] == v[j]);
                }
            }
            let kw = choose|kw: int| registered_at(w, kw, other);
            lemma_registered_at_unique(w, kw, i, other);
        } else {
            assert forall|j: int| 0 <= j < w.len() implies (#[trigger] w[j]).0 != other by {
                if j < v.len() {
                    assert(w[j] == v[j]);
                }
            }
        }
    }
}

} // verus!
