use chrono::Utc;
use vstd::prelude::*;

verus! {

/// A UTC instant as plain values: whole seconds since the Unix epoch and the
/// nanoseconds past that second.
#[derive(Clone, Copy, Debug, PartialEq, Eq)]
pub struct Timestamp {
    pub secs: i64,
    pub nanos: u32,
}

/// Calls `chrono::Utc::now` and converts the instant to its seconds and
/// nanoseconds. The result is the machine's clock, so nothing is promised of it;
/// chrono panics only when the system clock reads a time before 1970.
#[verifier::external_body]
pub(crate) fn utc_now() -> Timestamp {
    let now = Utc::now();
    Timestamp { secs: now.timestamp(), nanos: now.timestamp_subsec_nanos() }
}

} // verus!
