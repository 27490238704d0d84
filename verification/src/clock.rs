//! The wall clock, read in whole seconds since the Unix epoch.

use vstd::prelude::*;

verus! {

/// Reads the system clock (`std::time::SystemTime::now`) and measures it from
/// `UNIX_EPOCH` in whole seconds; `None` when the clock reads a time before the
/// epoch. The value is whatever the clock says at the moment of the call, so
/// no clause constrains it: two calls may return anything.
#[verifier::external_body]
fn system_secs_since_epoch() -> (secs: Option<u64>) {
    std::time::SystemTime::now().duration_since(std::time::UNIX_EPOCH).ok().map(|d| d.as_secs())
}

/// A clock reading as a Unix time: the seconds since the epoch, taken as an
/// `i64` (bit for bit), or 0 for a reading before the epoch.
pub open spec fn epoch_seconds_of(reading: Option<u64>) -> i64 {
    match reading {
        Some(secs) => secs as i64,
        None => 0,
    }
}

/// Turns a clock reading into a Unix time.
pub fn epoch_seconds_from(reading: Option<u64>) -> (t: i64)
    ensures
        t == epoch_seconds_of(reading),
{
    match reading {
        Some(secs) => secs as i64,
        None => 0,
    }
}

/// Current Unix time in seconds, or 0 when the clock reads before the epoch.
pub fn now_epoch_seconds() -> i64 {
    epoch_seconds_from(system_secs_since_epoch())
}

} // verus!
