//! The wall clock, in whole seconds since the Unix epoch.
use vstd::prelude::*;

verus! {

/// The last second that `chrono` can represent (December 31, 262142, 23:59:59 UTC).
pub const LATEST_SECOND: i64 = 8_210_266_876_799;

/// The current time in whole seconds since the Unix epoch, from
/// `chrono::Utc::now().timestamp()`.
/// Trusted: `Utc::now` panics when the system clock reads before the epoch
/// or beyond chrono's range (a state of the machine, not of any argument),
/// so the value it returns lies between 0 and `LATEST_SECOND`; which second
/// it is depends on the clock and is not stated.
#[verifier::external_body]
pub(crate) fn now_seconds() -> (t: i64)
    ensures
        0 <= t <= LATEST_SECOND,
{
    chrono::Utc::now().timestamp()
}

} // verus!
