//! Points in time, as the plain values that the staleness rules read.

use vstd::prelude::*;

verus! {

/// A point in time: whole seconds since the Unix epoch and the nanoseconds
/// past them.
#[derive(PartialEq, Eq, Structural, Clone, Copy, Debug)]
pub struct Timestamp {
    pub secs: i64,
    pub nanos: u32,
}

/// The nanoseconds from `earlier` to `later` (negative when `later` is before).
pub open spec fn nanos_between(later: Timestamp, earlier: Timestamp) -> int {
    (later.secs - earlier.secs) * 1_000_000_000 + (later.nanos - earlier.nanos)
}

/// `later - earlier` in nanoseconds.
pub fn elapsed_nanos(later: Timestamp, earlier: Timestamp) -> (d: i128)
    ensures
        d == nanos_between(later, earlier),
{
    let secs = (later.secs as i128) - (earlier.secs as i128);
    let nanos = (later.nanos as i128) - (earlier.nanos as i128);
    secs * 1_000_000_000 + nanos
}

} // verus!
