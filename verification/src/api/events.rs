//! Models event sources
use crate::api::activities::{
    clone_opt_value, ActivityEvent, ActivityId, ActivityKind, AddActivityPayload, CompletePayload,
    FailurePayload,
};
use crate::text::{clone_opt_strings, clone_strings, opt_strings_view, strings_view};
use serde_json::Value;
use vstd::prelude::*;
use vstd::std_specs::convert::FromSpecImpl;

verus! {

// --- System events ---

#[derive(Clone, Eq, PartialEq, Debug)]
pub struct SystemErrorData {
    pub activity_id: ActivityId,
    pub source: String,
    pub errors: Vec<String>,
}

#[derive(Clone, Eq, PartialEq, Debug)]
pub enum SystemEvent {
    Error(SystemErrorData),
    /// Activity was encountered but no provider registered to handle it
    NoProvider(ActivityKind),
}

// --- Wrapper enum ---

#[derive(Clone, Eq, PartialEq, Debug)]
pub enum Event {
    Activity(ActivityEvent),
    System(SystemEvent),
}

impl Event {
    // Convenience constructors that produce Event::Activity variants
    pub fn add_sync(
        id: &str,
        kind: &str,
        config: Option<Value>,
        depends_on: Option<Vec<String>>,
    ) -> (r: Self)
        ensures
            r matches Event::Activity(ActivityEvent::AddSync(p)) && p.id@ == id@ && p.kind@
                == kind@ && p.config == config && p.depends_on == depends_on,
    {
        Event::Activity(ActivityEvent::add_sync(id, kind, config, depends_on))
    }

    pub fn add_async(id: &str, kind: &str, config: Option<Value>) -> (r: Self)
        ensures
            r matches Event::Activity(ActivityEvent::AddAsync(p)) && p.id@ == id@ && p.kind@
                == kind@ && p.config == config && p.depends_on is None,
    {
        Event::Activity(ActivityEvent::add_async(id, kind, config))
    }

    pub fn start(id: &str) -> (r: Self)
        ensures
            r matches Event::Activity(ActivityEvent::Start(i)) && i@ == id@,
    {
        Event::Activity(ActivityEvent::start(id))
    }

    pub fn complete(id: &str, output: Option<Value>) -> (r: Self)
        ensures
            r matches Event::Activity(ActivityEvent::Complete(p)) && p.id@ == id@ && p.output
                == output,
    {
        Event::Activity(ActivityEvent::complete(id, output))
    }

    pub fn failed(id: &str, reason: Option<String>) -> (r: Self)
        ensures
            r matches Event::Activity(ActivityEvent::Failed(p)) && p.id@ == id@ && p.reason
                == reason,
    {
        Event::Activity(ActivityEvent::failed(id, reason))
    }

    pub fn error(id: &str, reason: Option<String>) -> (r: Self)
        ensures
            r matches Event::Activity(ActivityEvent::Error(p)) && p.id@ == id@ && p.reason
                == reason,
    {
        Event::Activity(ActivityEvent::error(id, reason))
    }

    pub fn system_error(data: SystemErrorData) -> (r: Self)
        ensures
            r == Event::System(SystemEvent::Error(data)),
    {
        Event::System(SystemEvent::Error(data))
    }
}

impl From<ActivityEvent> for Event {
    fn from(e: ActivityEvent) -> (r: Self) {
        Event::Activity(e)
    }
}

impl FromSpecImpl<ActivityEvent> for Event {
    open spec fn obeys_from_spec() -> bool {
        true
    }

    open spec fn from_spec(e: ActivityEvent) -> Self {
        Event::Activity(e)
    }
}

impl From<SystemEvent> for Event {
    fn from(e: SystemEvent) -> (r: Self) {
        Event::System(e)
    }
}

impl FromSpecImpl<SystemEvent> for Event {
    open spec fn obeys_from_spec() -> bool {
        true
    }

    open spec fn from_spec(e: SystemEvent) -> Self {
        Event::System(e)
    }
}

pub type EventStream = Vec<Event>;

// --- Copies of events ---

/// Two add payloads with the same fields (the dependencies compared by their views).
pub open spec fn same_add(a: AddActivityPayload, b: AddActivityPayload) -> bool {
    &&& a.id == b.id
    &&& a.kind == b.kind
    &&& a.config == b.config
    &&& opt_strings_view(a.depends_on) == opt_strings_view(b.depends_on)
}

/// Two activity events of the same variant with the same fields.
pub open spec fn same_activity_event(a: ActivityEvent, b: ActivityEvent) -> bool {
    match (a, b) {
        (ActivityEvent::AddSync(x), ActivityEvent::AddSync(y)) => same_add(x, y),
        (ActivityEvent::AddAsync(x), ActivityEvent::AddAsync(y)) => same_add(x, y),
        (ActivityEvent::Start(x), ActivityEvent::Start(y)) => x == y,
        (ActivityEvent::Complete(x), ActivityEvent::Complete(y)) => x == y,
        (ActivityEvent::Failed(x), ActivityEvent::Failed(y)) => x == y,
        (ActivityEvent::Error(x), ActivityEvent::Error(y)) => x == y,
        (ActivityEvent::Retry(x), ActivityEvent::Retry(y)) => x == y,
        _ => false,
    }
}

/// Two system events of the same variant with the same fields.
pub open spec fn same_system_event(a: SystemEvent, b: SystemEvent) -> bool {
    match (a, b) {
        (SystemEvent::Error(x), SystemEvent::Error(y)) => {
            &&& x.activity_id == y.activity_id
            &&& x.source == y.source
            &&& strings_view(x.errors@) == strings_view(y.errors@)
        },
        (SystemEvent::NoProvider(x), SystemEvent::NoProvider(y)) => x == y,
        _ => false,
    }
}

/// Two events of the same variant with the same fields.
pub open spec fn same_event(a: Event, b: Event) -> bool {
    match (a, b) {
        (Event::Activity(x), Event::Activity(y)) => same_activity_event(x, y),
        (Event::System(x), Event::System(y)) => same_system_event(x, y),
        _ => false,
    }
}

fn clone_opt_string(s: &Option<String>) -> (r: Option<String>)
    ensures
        r == *s,
{
    match s {
        Some(s) => Some(s.clone()),
        None => None,
    }
}

fn clone_add(p: &AddActivityPayload) -> (r: AddActivityPayload)
    ensures
        same_add(r, *p),
{
    AddActivityPayload {
        id: p.id.clone(),
        kind: p.kind.clone(),
        config: clone_opt_value(&p.config),
        depends_on: clone_opt_strings(&p.depends_on),
    }
}

/// A copy of an event.
pub fn clone_event(e: &Event) -> (r: Event)
    ensures
        same_event(r, *e),
{
    match e {
        Event::Activity(ae) => Event::Activity(
            match ae {
                ActivityEvent::AddSync(p) => ActivityEvent::AddSync(clone_add(p)),
                ActivityEvent::AddAsync(p) => ActivityEvent::AddAsync(clone_add(p)),
                ActivityEvent::Start(id) => ActivityEvent::Start(id.clone()),
                ActivityEvent::Complete(p) => ActivityEvent::Complete(
                    CompletePayload { id: p.id.clone(), output: clone_opt_value(&p.output) },
                ),
                ActivityEvent::Failed(p) => ActivityEvent::Failed(
                    FailurePayload { id: p.id.clone(), reason: clone_opt_string(&p.reason) },
                ),
                ActivityEvent::Error(p) => ActivityEvent::Error(
                    FailurePayload { id: p.id.clone(), reason: clone_opt_string(&p.reason) },
                ),
                ActivityEvent::Retry(id) => ActivityEvent::Retry(id.clone()),
            },
        ),
        Event::System(se) => Event::System(
            match se {
                SystemEvent::Error(d) => SystemEvent::Error(
                    SystemErrorData {
                        activity_id: d.activity_id.clone(),
                        source: d.source.clone(),
                        errors: clone_strings(&d.errors),
                    },
                ),
                SystemEvent::NoProvider(kind) => SystemEvent::NoProvider(kind.clone()),
            },
        ),
    }
}

/// A copy of an event stream.
pub fn clone_events(v: &EventStream) -> (r: EventStream)
    ensures
        r@.len() == v@.len(),
        forall|i: int| 0 <= i < v@.len() ==> same_event(#[trigger] r@[i], v@[i]),
{
    let mut r: EventStream = Vec::new();
    let mut i: usize = 0;
    while i < v.len()
        invariant
            i <= v@.len(),
            r@.len() == i,
            forall|j: int| 0 <= j < i ==> same_event(#[trigger] r@[j], v@[j]),
        decreases v@.len() - i,
    {
        r.push(clone_event(&v[i]));
        i = i + 1;
    }
    r
}

} // verus!
