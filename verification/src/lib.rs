//! An event-sourced workflow engine: activities are added, started and closed by
//! events, and the execution state is always the replay of the event stream.
pub mod activities;
pub mod api;
pub mod clock;
pub mod cmd_spec;
pub mod graph;
mod impl_;
pub mod json;
pub mod runner;
pub mod serde_command;
pub mod text;

pub use impl_::event_store::{InMemoryEventStore, SqliteEventStore};
