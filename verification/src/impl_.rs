pub mod event_store;
