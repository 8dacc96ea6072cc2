//! Solely responsible for calling an activity function
use crate::api::activities::{Activity, ActivityEvent, ActivityView};
use crate::api::events::{Event, SystemErrorData, SystemEvent};
use crate::api::execution::{has_id, index_of, DefaultExecutionState};
use crate::json::{clone_value, json_from_option, value_from_option};
use crate::runner::registry::{lookup, Registry};
use crate::text::{join_spec, join_strings, owned, strings_view};
use serde_json::Value;
use vstd::prelude::*;

verus! {

/// The event that records what a module returned for the activity `id`: its
/// completion with the output, or its error with the messages joined by commas.
pub open spec fn outcome_event(r: Event, id: Seq<char>, res: Result<Value, Vec<String>>) -> bool {
    match res {
        Ok(v) => r matches Event::Activity(ActivityEvent::Complete(p)) && p.id@ == id && p.output
            == Some(v),
        Err(errs) => {
            &&& r matches Event::Activity(ActivityEvent::Error(p))
            &&& p.id@ == id
            &&& p.reason matches Some(t)
            &&& t@ == join_spec(strings_view(errs@), ","@)
        },
    }
}

/// An error event for the activity `id` with the reason `reason`.
pub open spec fn error_event(r: Event, id: Seq<char>, reason: Seq<char>) -> bool {
    &&& r matches Event::Activity(ActivityEvent::Error(p))
    &&& p.id@ == id
    &&& p.reason matches Some(t)
    &&& t@ == reason
}

/// A JSON value, or `null` when there is none.
pub open spec fn value_or_null(v: Option<Value>) -> Value {
    match v {
        Some(v) => v,
        None => json_from_option(None),
    }
}

/// `r` answers the run of the activity `a` with id `id`: the error that no module
/// is registered for its kind, or the event for what the module registered for
/// its kind returned when given the activity's configuration and input (`null`
/// where there is none).
pub open spec fn processed<M, F: Fn(&M, &Value, &Value) -> Result<Value, Vec<String>>>(
    r: Event,
    a: ActivityView,
    id: Seq<char>,
    modules: Seq<(Seq<char>, M)>,
    execute: &F,
) -> bool {
    match lookup(modules, a.core.kind) {
        None => error_event(r, id, "Could not find activity module"@),
        Some(m) => exists|res: Result<Value, Vec<String>>|
            execute.ensures((&m, &value_or_null(a.core.config), &value_or_null(a.input)), res)
                && outcome_event(r, id, res),
    }
}

/// The event a processor answers for the activity `id` with the result of its module.
pub fn process_result(id: &str, result: Result<Value, Vec<String>>) -> (r: Event)
    ensures
        outcome_event(r, id@, result),
{
    match result {
        Ok(value) => Event::complete(id, Some(value)),
        Err(errors) => Event::error(id, Some(join_strings(&errors, ","))),
    }
}

/// Knows how to call an activity function. Is at the edge of side effects.
/// Takes an ActivityEvent (what happened), returns an Event (which may be activity or system).
/// The module registered for the started activity's kind is run by `execute`,
/// with the activity's configuration and input (`null` where there is none).
pub fn process<M, F>(
    state: &DefaultExecutionState,
    registry: &Registry<M>,
    activity_event: &ActivityEvent,
    execute: &F,
) -> (r: Event) where F: Fn(&M, &Value, &Value) -> Result<Value, Vec<String>>
    requires
        state.wf(),
        activity_event matches ActivityEvent::Start(id) ==> has_id(state@, id@),
        forall|m: &M, c: &Value, i: &Value| execute.requires((m, c, i)),
    ensures
        activity_event matches ActivityEvent::Start(id) ==> processed(
            r,
            state@[index_of(state@, id@)],
            id@,
            registry@,
            execute,
        ),
        !(activity_event is Start) ==> (r matches Event::System(SystemEvent::Error(d))
            && d.activity_id@ == activity_event.id_view() && strings_view(d.errors@) == seq![
            "Invalid event sent to processor"@] && d.source@ == "processor::process"@),
{
    let id = owned(activity_event.activity_id().as_str());
    match activity_event {
        ActivityEvent::Start(activity_id) => {
            let activity = crate::runner::reduce::activity_with_id(state, activity_id.as_str());
            let kind = activity.kind();
            let module = match registry.get_module(kind) {
                Some(m) => m,
                None => {
                    return Event::error(&id, Some(owned("Could not find activity module")));
                },
            };
            let config = value_from_option(
                match activity.config() {
                    Some(c) => Some(clone_value(c)),
                    None => None,
                },
            );
            let input = value_from_option(
                match activity.input() {
                    Some(i) => Some(clone_value(i)),
                    None => None,
                },
            );
            let result = execute(module, &config, &input);
            process_result(activity_id.as_str(), result)
        },
        _ => {
            let errors = vec![owned("Invalid event sent to processor")];
            assert(strings_view(errors@) =~= seq!["Invalid event sent to processor"@]);
            Event::system_error(
                SystemErrorData { activity_id: id, errors, source: owned("processor::process") },
            )
        },
    }
}

} // verus!
