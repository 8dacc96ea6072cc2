use crate::api::events::{clone_events, same_event, Event, EventStream};
use crate::api::EventStore;
use vstd::prelude::*;

verus! {

/// An event store that keeps the events in memory, in the order persisted.
pub struct InMemoryEventStore {
    events: Vec<Event>,
}

impl InMemoryEventStore {
    /// The events stored, in order.
    pub closed spec fn stored(&self) -> Seq<Event> {
        self.events@
    }

    pub fn new() -> (r: InMemoryEventStore)
        ensures
            r.stored() == Seq::<Event>::empty(),
    {
        Self::default()
    }

    pub fn from_events(events: Vec<Event>) -> (r: InMemoryEventStore)
        ensures
            r.stored() == events@,
    {
        InMemoryEventStore { events }
    }
}

impl Default for InMemoryEventStore {
    fn default() -> (r: Self)
        ensures
            r.stored() == Seq::<Event>::empty(),
    {
        InMemoryEventStore { events: Vec::new() }
    }
}

impl EventStore for InMemoryEventStore {
    /// Appends the event; never fails.
    fn persist(&mut self, event: Event) -> (r: Result<(), String>)
        ensures
            r is Ok,
            final(self).stored() == old(self).stored().push(event),
    {
        self.events.push(event);
        Ok(())
    }

    /// A copy of every event stored, in order.
    fn get_events(&self) -> (r: EventStream)
        ensures
            r@.len() == self.stored().len(),
            forall|i: int| 0 <= i < r@.len() ==> same_event(#[trigger] r@[i], self.stored()[i]),
    {
        clone_events(&self.events)
    }
}

} // verus!
