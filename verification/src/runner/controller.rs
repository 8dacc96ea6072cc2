//! Stateful object that ties together processing loop with functions
mod get_prior_output;

use crate::api::activities::{Activity, ActivityEvent, ActivityView, AsyncActivity, SyncActivity};
use crate::api::events::{Event, EventStream};
use crate::api::execution::{has_id, id_at, index_of, lemma_index_of_unique, stopped, unique_ids, DefaultExecutionState, ExecutionState};
use crate::runner::processor::{process, processed};
use crate::runner::properties::{closed_kept, lemma_closed_activities_stay, lemma_closed_kept_trans};
use crate::runner::reduce::{started_by, completed_with, errored_with, event_applies, graph_fits, lemma_update_keeps_cores, reduce, refresh_all, started};
use crate::runner::registry::Registry;
use crate::runner::restore::{log_applies, restore, restore_view};
use crate::runner::scheduler::{first_runnable, none_runnable, scheduler};
use serde_json::Value;
use vstd::prelude::*;

pub use get_prior_output::{prior_output, resolve_prior_output};

verus! {

/// The number of activities that are not closed.
pub open spec fn open_count(s: Seq<ActivityView>) -> nat
    decreases s.len(),
{
    if s.len() == 0 {
        0
    } else {
        open_count(s.drop_last()) + if s.last().closed() {
            0nat
        } else {
            1nat
        }
    }
}

/// Sequences that agree on which activities are closed have as many open ones.
pub proof fn lemma_open_count_same(s: Seq<ActivityView>, t: Seq<ActivityView>)
    requires
        s.len() == t.len(),
        forall|i: int| 0 <= i < s.len() ==> (#[trigger] s[i]).closed() == t[i].closed(),
    ensures
        open_count(s) == open_count(t),
    decreases s.len(),
{
    if s.len() > 0 {
        assert forall|i: int| 0 <= i < s.drop_last().len() implies (
        #[trigger] s.drop_last()[i]).closed() == t.drop_last()[i].closed() by {
            assert(s.drop_last()[i] == s[i]);
            assert(t.drop_last()[i] == t[i]);
        }
        lemma_open_count_same(s.drop_last(), t.drop_last());
        assert(s.last().closed() == t[t.len() - 1].closed());
    }
}

/// Closing an open activity leaves one fewer open activity.
pub proof fn lemma_open_count_close(s: Seq<ActivityView>, i: int, a: ActivityView)
    requires
        0 <= i < s.len(),
        !s[i].closed(),
        a.closed(),
    ensures
        open_count(s.update(i, a)) + 1 == open_count(s),
    decreases s.len(),
{
    let t = s.update(i, a);
    if i == s.len() - 1 {
        assert(t.drop_last() =~= s.drop_last());
    } else {
        assert(t.drop_last() =~= s.drop_last().update(i, a));
        lemma_open_count_close(s.drop_last(), i, a);
    }
}

/// Re-evaluating readiness closes and opens nothing.
pub proof fn lemma_refresh_keeps_open(s: Seq<ActivityView>)
    ensures
        open_count(refresh_all(s)) == open_count(s),
{
    assert forall|i: int| 0 <= i < s.len() implies (#[trigger] s[i]).closed() == refresh_all(
        s,
    )[i].closed() by {}
    lemma_open_count_same(s, refresh_all(s));
}

/// The controller has nothing more to start: no activity is runnable, the
/// execution has stopped, or the next runnable activity is an asynchronous one
/// that is already running.
pub open spec fn scheduling_done(s: Seq<ActivityView>) -> bool {
    ||| none_runnable(s)
    ||| stopped(s)
    ||| exists|i: int| first_runnable(s, i) && s[i].phase is Running
}

/// The events at `k` and `k + 1` of the log record one run: the start of the
/// first runnable activity of the state that the events before `k` give, an
/// activity that is ready there, then the answer to its run by the module
/// registered for its kind.
pub open spec fn run_recorded<M, F: Fn(&M, &Value, &Value) -> Result<Value, Vec<String>>>(
    log: Seq<Event>,
    k: int,
    modules: Seq<(Seq<char>, M)>,
    execute: &F,
) -> bool {
    let s = restore_view(log.take(k));
    &&& 0 <= k
    &&& k + 1 < log.len()
    &&& log[k] matches Event::Activity(ActivityEvent::Start(id))
    &&& has_id(s, id@)
    &&& first_runnable(s, index_of(s, id@))
    &&& s[index_of(s, id@)].phase is Ready
    &&& processed(
        log[k + 1],
        restore_view(log.take(k + 1))[index_of(s, id@)],
        id@,
        modules,
        execute,
    )
}

/// The events after the first `n` of the log come in pairs, each recording one run.
pub open spec fn runs_recorded<M, F: Fn(&M, &Value, &Value) -> Result<Value, Vec<String>>>(
    log: Seq<Event>,
    n: int,
    modules: Seq<(Seq<char>, M)>,
    execute: &F,
) -> bool {
    &&& (log.len() - n) % 2 == 0
    &&& forall|k: int|
        n <= k < log.len() && (k - n) % 2 == 0 ==> #[trigger] run_recorded(
            log,
            k,
            modules,
            execute,
        )
}

/// No event after the events `old` starts an activity that was completed in the
/// state that `old` gives: completed activities are not run again.
pub open spec fn no_rerun(old: Seq<Event>, log: Seq<Event>) -> bool {
    forall|k: int, j: int|
        #![trigger log[k], restore_view(old)[j]]
        old.len() <= k < log.len() && 0 <= j < restore_view(old).len() && restore_view(
            old,
        )[j].completed() ==> started_by(log[k]) != Some(restore_view(old)[j].core.id)
}

/// A run recorded in a log is recorded the same in every log that extends it.
proof fn lemma_run_recorded_extend<M, F: Fn(&M, &Value, &Value) -> Result<Value, Vec<String>>>(
    log: Seq<Event>,
    ext: Seq<Event>,
    k: int,
    modules: Seq<(Seq<char>, M)>,
    execute: &F,
)
    requires
        ext.len() >= log.len(),
        ext.take(log.len() as int) == log,
        0 <= k,
        k + 1 < log.len(),
    ensures
        run_recorded(ext, k, modules, execute) == run_recorded(log, k, modules, execute),
{
    assert(ext.take(k) =~= log.take(k));
    assert(ext.take(k + 1) =~= log.take(k + 1));
    assert(ext.take(log.len() as int)[k] == ext[k]);
    assert(ext.take(log.len() as int)[k + 1] == ext[k + 1]);
}

pub struct Controller<M> {
    registry: Registry<M>,
    event_log: EventStream,
}

impl<M> Controller<M> {
    /// The events recorded so far.
    pub closed spec fn log(&self) -> Seq<Event> {
        self.event_log@
    }

    /// The registered modules with their ids.
    pub closed spec fn modules(&self) -> Seq<(Seq<char>, M)> {
        self.registry@
    }

    pub fn new(registry: Registry<M>, event_log: EventStream) -> (r: Controller<M>)
        ensures
            r.modules() == registry@,
            r.log() == event_log@,
    {
        Controller { registry, event_log }
    }

    /// The registry and the event log, given back.
    pub fn into_parts(self) -> (r: (Registry<M>, EventStream))
        ensures
            r.0@ == self.modules(),
            r.1@ == self.log(),
    {
        (self.registry, self.event_log)
    }

    /// The events recorded so far.
    pub fn event_log(&self) -> (r: &EventStream)
        ensures
            r@ == self.log(),
    {
        &self.event_log
    }

    /// The registry of the modules that run the activities.
    pub fn registry(&self) -> (r: &Registry<M>)
        ensures
            r@ == self.modules(),
    {
        &self.registry
    }

    /// Restores the state from the event log, then starts the next runnable
    /// activity and records its result, again and again, appending each start
    /// event and each result event to the log. Stops when nothing more can be
    /// started: no activity is runnable, the execution has stopped, or the next
    /// runnable activity is an asynchronous one that is already running. Each
    /// activity is run with the output of the activity before it as input, once
    /// that one has completed.
    pub fn start<F>(&mut self, execute: &F) -> (r: DefaultExecutionState) where
        F: Fn(&M, &Value, &Value) -> Result<Value, Vec<String>>,

        requires
            log_applies(old(self).log()),
            forall|m: &M, c: &Value, i: &Value| execute.requires((m, c, i)),
        ensures
            r.wf(),
            log_applies(final(self).log()),
            r@ == restore_view(final(self).log()),
            final(self).log().len() >= old(self).log().len(),
            final(self).log().take(old(self).log().len() as int) == old(self).log(),
            r@.len() == restore_view(old(self).log()).len(),
            final(self).modules() == old(self).modules(),
            scheduling_done(r@),
            runs_recorded(final(self).log(), old(self).log().len() as int, final(self).modules(), execute),
            no_rerun(old(self).log(), final(self).log()),
    {
        let mut execution_state = restore(&self.event_log);
        let ghost old_log = self.event_log@;
        let ghost count = execution_state@.len();
        assert(self.event_log@.take(old_log.len() as int) =~= old_log);
        assert(closed_kept(restore_view(old_log), execution_state@));
        loop
            invariant
                execution_state.wf(),
                log_applies(self.event_log@),
                execution_state@ == restore_view(self.event_log@),
                graph_fits(execution_state@),
                self.event_log@.len() >= old_log.len(),
                self.event_log@.take(old_log.len() as int) == old_log,
                execution_state@.len() == count,
                self.registry@ == old(self).registry@,
                forall|m: &M, c: &Value, i: &Value| execute.requires((m, c, i)),
                runs_recorded(self.event_log@, old_log.len() as int, self.registry@, execute),
                no_rerun(old_log, self.event_log@),
                closed_kept(restore_view(old_log), execution_state@),
            ensures
                scheduling_done(execution_state@),
            decreases open_count(execution_state@),
        {
            let ghost s0 = execution_state@;
            let id = match scheduler(&execution_state) {
                Some(id) => id,
                None => {
                    break ;
                },
            };
            let ghost i = choose|i: int| first_runnable(s0, i) && s0[i].core.id == id@;
            proof {
                lemma_index_of_unique(s0, i, id@);
            }
            if execution_state.is_stopped() {
                break ;
            }
            let found = execution_state.get_activity_state(id.as_str());
            let ready = match found {
                Some(Activity::Sync(SyncActivity::Ready(_))) => true,
                Some(Activity::Async(AsyncActivity::Ready(_))) => true,
                _ => false,
            };
            proof {
                assert(has_id(s0, id@));
                let k = choose|k: int|
                    id_at(s0, k, id@) && (forall|j: int| 0 <= j < k ==> s0[j].core.id != id@)
                        && *found.unwrap() == execution_state.activity_states@[k];
                lemma_index_of_unique(s0, k, id@);
            }
            if !ready {
                assert(s0[i].phase is Running);
                break ;
            }
            assert(s0[i].phase is Ready);
            let activity_event = ActivityEvent::start(id.as_str());
            let start_event = Event::start(id.as_str());
            let ghost log0 = self.event_log@;
            execution_state = reduce(execution_state, &start_event);
            self.event_log.push(start_event);
            let ghost s1 = execution_state@;
            proof {
                assert(self.event_log@.drop_last() =~= log0);
                assert(self.event_log@.take(old_log.len() as int) =~= old_log);
                assert(event_applies(s0, start_event));
                assert(log_applies(self.event_log@));
                assert(s1 == restore_view(self.event_log@));
                assert(s1 == s0.update(i, started(s0, s0[i])));
                lemma_update_keeps_cores(s0, i, started(s0, s0[i]));
                assert(unique_ids(s1));
                assert(id_at(s1, i, id@));
                lemma_index_of_unique(s1, i, id@);
                lemma_open_count_same(s0, s1);
                // nothing failed or errored, and something is running: not stopped
                assert(!s1[i].completed());
                assert(!(forall|j: int| 0 <= j < s1.len() ==> #[trigger] s1[j].completed()));
                assert(!(exists|j: int| 0 <= j < s1.len() && #[trigger] s1[j].failed())) by {
                    assert(!(exists|j: int| 0 <= j < s0.len() && #[trigger] s0[j].failed()));
                    assert forall|j: int| 0 <= j < s1.len() implies !(#[trigger] s1[j].failed()) by {
                        if j != i {
                            assert(s1[j] == s0[j]);
                        }
                    }
                }
                assert(!(exists|j: int| 0 <= j < s1.len() && #[trigger] s1[j].errored())) by {
                    assert(!(exists|j: int| 0 <= j < s0.len() && #[trigger] s0[j].errored()));
                    assert forall|j: int| 0 <= j < s1.len() implies !(#[trigger] s1[j].errored()) by {
                        if j != i {
                            assert(s1[j] == s0[j]);
                        }
                    }
                }
                assert(!stopped(s1));
            }
            let result_event = process(&execution_state, &self.registry, &activity_event, execute);
            proof {
                let a = s1[i];
                let ev = result_event;
                assert(a.phase is Running);
                match ev {
                    Event::Activity(ActivityEvent::Complete(p)) => {
                        assert(p.id@ == id@);
                        lemma_update_keeps_cores(s1, i, completed_with(a, p.output));
                        lemma_open_count_close(s1, i, completed_with(a, p.output));
                        lemma_refresh_keeps_open(s1.update(i, completed_with(a, p.output)));
                    },
                    Event::Activity(ActivityEvent::Error(p)) => {
                        assert(p.id@ == id@);
                        lemma_open_count_close(s1, i, errored_with(a, p.reason));
                    },
                    _ => {},
                }
                assert(event_applies(s1, ev));
            }
            let ghost log1 = self.event_log@;
            proof {
                crate::runner::reduce::lemma_reduce_keeps_fit(s1, result_event);
            }
            execution_state = reduce(execution_state, &result_event);
            self.event_log.push(result_event);
            proof {
                assert(self.event_log@.drop_last() =~= log1);
                assert(self.event_log@.take(old_log.len() as int) =~= old_log);
                assert(log_applies(self.event_log@));
                let log2 = self.event_log@;
                let n0 = log0.len() as int;
                let on = old_log.len() as int;
                assert(log2 =~= log0.push(start_event).push(result_event));
                assert(log2.take(n0) =~= log0);
                assert(log2.take(n0 + 1) =~= log1);
                assert(log2[n0] == start_event);
                assert(log2[n0 + 1] == result_event);
                // the new pair records a run
                assert(restore_view(log2.take(n0)) == s0);
                assert(restore_view(log2.take(n0 + 1)) == s1);
                assert(index_of(s0, id@) == i);
                assert(run_recorded(log2, n0, self.registry@, execute));
                assert forall|k: int|
                    on <= k < log2.len() && (k - on) % 2 == 0 implies #[trigger] run_recorded(
                    log2,
                    k,
                    self.registry@,
                    execute,
                ) by {
                    if k < n0 {
                        assert(run_recorded(log0, k, self.registry@, execute));
                        lemma_run_recorded_extend(log0, log2, k, self.registry@, execute);
                    } else if k == n0 + 1 {
                        assert((k - on) % 2 == 1);
                    }
                }
                // the result answers a run: it completes or errors, and starts nothing
                assert(started_by(result_event) is None);
                assert forall|k: int, j: int|
                    #![trigger log2[k], restore_view(old_log)[j]]
                    on <= k < log2.len() && 0 <= j < restore_view(old_log).len() && restore_view(
                        old_log,
                    )[j].completed() implies started_by(log2[k]) != Some(
                    restore_view(old_log)[j].core.id,
                ) by {
                    let so = restore_view(old_log);
                    if k < n0 {
                        assert(log2[k] == log0[k]);
                    } else if k == n0 {
                        assert(s0[j] == so[j]);
                        assert(j != i);
                        assert(s0[j].core.id != s0[i].core.id);
                    }
                }
                lemma_closed_activities_stay(s0, start_event);
                lemma_closed_activities_stay(s1, result_event);
                lemma_closed_kept_trans(restore_view(old_log), s0, s1);
                lemma_closed_kept_trans(restore_view(old_log), s1, execution_state@);
            }
        }
        execution_state
    }
}

} // verus!
