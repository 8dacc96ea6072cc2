mod in_memory;
mod sqlite;

pub use in_memory::InMemoryEventStore;
pub use sqlite::SqliteEventStore;
