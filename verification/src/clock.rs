//! Moments in time, and the clock that the `chrono` crate reads.

use vstd::prelude::*;

verus! {

/// A moment in UTC: whole seconds since the start of 1970, and the
/// nanoseconds since that second began.
#[derive(Clone, Copy, Debug, PartialEq, Eq, Structural)]
pub struct Timestamp {
    pub secs: i64,
    pub nanos: u32,
}

/// `chrono::Utc::now`, read with `timestamp` and `timestamp_subsec_nanos`:
/// the current moment. Each call reads the system clock, so nothing is
/// claimed of the result. On a machine whose clock stands before 1970 the
/// call panics.
#[verifier::external_body]
pub(crate) fn now() -> (moment: Timestamp) {
    let moment = chrono::Utc::now();
    Timestamp { secs: moment.timestamp(), nanos: moment.timestamp_subsec_nanos() }
}

} // verus!
