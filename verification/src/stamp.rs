//! Identifiers and instants: UUIDs as 128-bit integers and UTC instants as
//! seconds and nanoseconds since the Unix epoch. Fresh ids and the current
//! time come from the caller, who draws them from the random source and the
//! clock.

use vstd::prelude::*;

verus! {

/// A UTC instant: whole seconds since the Unix epoch and the nanoseconds
/// past that second.
#[derive(Clone, Copy, Debug, PartialEq, Eq, Structural)]
pub struct Timestamp {
    pub secs: i64,
    pub nanos: u32,
}

/// A fresh id together with the instant it was drawn at, for one new record
/// or event.
#[derive(Clone, Copy, Debug, PartialEq, Eq, Structural)]
pub struct Stamp {
    pub id: u128,
    pub at: Timestamp,
}

} // verus!
