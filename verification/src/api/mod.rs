pub mod activities;
mod event_store;
pub mod events;
pub mod execution;
mod facade;
mod scheduling;

pub use event_store::EventStore;
pub use facade::Facade;
pub use scheduling::Schedule;
