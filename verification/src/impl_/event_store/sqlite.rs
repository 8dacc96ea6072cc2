use vstd::prelude::*;

verus! {

#[allow(dead_code)]
struct OnDiskConfig {
    path: String,
}

#[allow(dead_code)]
enum Config {
    InMemory,
    OnDisk(OnDiskConfig),
}

/// An event store on SQLite; it stores nothing yet.
#[allow(dead_code)]
pub struct SqliteEventStore {}

#[allow(dead_code)]
impl SqliteEventStore {
    fn new(_config: Config) -> (r: SqliteEventStore) {
        SqliteEventStore {  }
    }
}

} // verus!
