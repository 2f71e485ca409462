//! Wall-clock time in whole seconds since the Unix epoch.

use vstd::prelude::*;

verus! {

/// `UNIX_EPOCH.elapsed()` in whole seconds: the time since the epoch by
/// the system clock, `None` when the clock reads earlier than the epoch.
/// Nothing is claimed of the value: it is the current time.
#[verifier::external_body]
fn clock_secs() -> (res: Option<u64>) {
    match std::time::UNIX_EPOCH.elapsed() {
        Ok(d) => Some(d.as_secs()),
        Err(_) => None,
    }
}

/// A clock reading as a signed timestamp: the seconds cast to `i64`, or 0
/// for a clock set before the epoch.
pub fn timestamp_from_clock(secs: Option<u64>) -> (res: i64)
    ensures
        res == match secs {
            Some(s) => s as i64,
            None => 0,
        },
{
    match secs {
        Some(s) => #[verifier::truncate] (s as i64),
        None => 0,
    }
}

/// The current Unix time in seconds, 0 if the clock reads before the epoch.
pub fn unix_timestamp() -> i64 {
    timestamp_from_clock(clock_secs())
}

/// The current Unix time in seconds, 0 if the clock reads before the epoch.
pub fn now_secs() -> i64 {
    timestamp_from_clock(clock_secs())
}

} // verus!
