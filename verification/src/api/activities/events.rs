use crate::api::activities::{ActivityId, ActivityKind};
use crate::text::owned;
use serde_json::Value;
use vstd::prelude::*;

verus! {

// --- Payloads ---

#[derive(Clone, Eq, PartialEq, Debug)]
pub struct AddActivityPayload {
    pub id: ActivityId,
    pub kind: ActivityKind,
    pub config: Option<Value>,
    pub depends_on: Option<Vec<ActivityId>>,
}

#[derive(Clone, Eq, PartialEq, Debug)]
pub struct CompletePayload {
    pub id: ActivityId,
    pub output: Option<Value>,
}

#[derive(Clone, Eq, PartialEq, Debug)]
pub struct FailurePayload {
    pub id: ActivityId,
    pub reason: Option<String>,
}

// --- Activity events ---

#[derive(Clone, Eq, PartialEq, Debug)]
pub enum ActivityEvent {
    AddSync(AddActivityPayload),
    AddAsync(AddActivityPayload),
    Start(ActivityId),
    Complete(CompletePayload),
    Failed(FailurePayload),
    Error(FailurePayload),
    Retry(ActivityId),
}

impl ActivityEvent {
    /// The id of the activity that the event is about.
    pub open spec fn id_view(self) -> Seq<char> {
        match self {
            ActivityEvent::AddSync(p) => p.id@,
            ActivityEvent::AddAsync(p) => p.id@,
            ActivityEvent::Start(id) => id@,
            ActivityEvent::Complete(p) => p.id@,
            ActivityEvent::Failed(p) => p.id@,
            ActivityEvent::Error(p) => p.id@,
            ActivityEvent::Retry(id) => id@,
        }
    }

    pub fn add_sync(
        id: &str,
        kind: &str,
        config: Option<Value>,
        depends_on: Option<Vec<ActivityId>>,
    ) -> (r: Self)
        ensures
            r matches ActivityEvent::AddSync(p) && p.id@ == id@ && p.kind@ == kind@ && p.config
                == config && p.depends_on == depends_on,
    {
        ActivityEvent::AddSync(AddActivityPayload { id: owned(id), kind: owned(kind), config, depends_on })
    }

    pub fn add_async(id: &str, kind: &str, config: Option<Value>) -> (r: Self)
        ensures
            r matches ActivityEvent::AddAsync(p) && p.id@ == id@ && p.kind@ == kind@ && p.config
                == config && p.depends_on is None,
    {
        ActivityEvent::AddAsync(
            AddActivityPayload { id: owned(id), kind: owned(kind), config, depends_on: None },
        )
    }

    pub fn start(id: &str) -> (r: Self)
        ensures
            r matches ActivityEvent::Start(i) && i@ == id@,
    {
        ActivityEvent::Start(owned(id))
    }

    pub fn complete(id: &str, output: Option<Value>) -> (r: Self)
        ensures
            r matches ActivityEvent::Complete(p) && p.id@ == id@ && p.output == output,
    {
        ActivityEvent::Complete(CompletePayload { id: owned(id), output })
    }

    pub fn failed(id: &str, reason: Option<String>) -> (r: Self)
        ensures
            r matches ActivityEvent::Failed(p) && p.id@ == id@ && p.reason == reason,
    {
        ActivityEvent::Failed(FailurePayload { id: owned(id), reason })
    }

    pub fn error(id: &str, reason: Option<String>) -> (r: Self)
        ensures
            r matches ActivityEvent::Error(p) && p.id@ == id@ && p.reason == reason,
    {
        ActivityEvent::Error(FailurePayload { id: owned(id), reason })
    }

    pub fn retry(id: &str) -> (r: Self)
        ensures
            r matches ActivityEvent::Retry(i) && i@ == id@,
    {
        ActivityEvent::Retry(owned(id))
    }

    pub fn activity_id(&self) -> (r: &ActivityId)
        ensures
            r@ == self.id_view(),
    {
        match self {
            ActivityEvent::AddSync(p) => &p.id,
            ActivityEvent::AddAsync(p) => &p.id,
            ActivityEvent::Start(id) => id,
            ActivityEvent::Complete(p) => &p.id,
            ActivityEvent::Failed(p) => &p.id,
            ActivityEvent::Error(p) => &p.id,
            ActivityEvent::Retry(id) => id,
        }
    }
}

} // verus!
