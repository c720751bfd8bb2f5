use vstd::prelude::*;

use crate::model::timestamp::Timestamp;

verus! {

/// Reads the system clock through `chrono::Utc::now` and hands back its
/// `timestamp` and `timestamp_subsec_nanos`. Nothing is claimed of which
/// instant comes back, only that it is one `chrono` can hold: `now` builds
/// its value with `DateTime::from_timestamp` from a `std::time::Duration`,
/// so the second has a calendar date and the nanoseconds stay under one
/// second.
#[verifier::external_body]
pub(crate) fn current_time() -> (now: Timestamp)
    ensures
        now.wf(),
{
    let now = chrono::Utc::now();
    Timestamp { secs: now.timestamp(), nanos: now.timestamp_subsec_nanos() }
}

} // verus!
