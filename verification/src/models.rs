//! The records the service stores and the requests that create or change them.
pub mod project;
pub mod task;
pub mod user;

use vstd::prelude::*;

verus! {

/// A point in time (UTC): whole seconds since the Unix epoch and the
/// nanoseconds within that second.
#[derive(Debug, Clone, Copy, PartialEq, Eq)]
pub struct Timestamp {
    pub secs: i64,
    pub nanos: u32,
}

} // verus!
