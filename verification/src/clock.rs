//! The time of day, which only the machine knows.

use vstd::prelude::*;

verus! {

/// A point in time: the whole seconds since the Unix epoch, and the
/// nanoseconds past them.
#[derive(Clone, Copy, Debug, PartialEq, Eq, Structural)]
pub struct Timestamp {
    pub secs: i64,
    pub nanos: u32,
}

/// Reads the clock with `chrono::Local::now`, takes the reading as UTC
/// (`naive_utc`) and splits it into seconds and nanoseconds. Nothing is
/// claimed of the reading.
#[verifier::external_body]
pub(crate) fn now() -> Timestamp {
    let t = chrono::Local::now().naive_utc().and_utc();
    Timestamp { secs: t.timestamp(), nanos: t.timestamp_subsec_nanos() }
}

} // verus!
