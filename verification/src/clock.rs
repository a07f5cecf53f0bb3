//! Wall-clock readings and the textual timestamps built from them.
use vstd::prelude::*;
use crate::text::{decimal, with_decimal};

verus! {

/// Seconds since the Unix epoch by the system clock
/// (`SystemTime::now().duration_since(UNIX_EPOCH)`, then `as_secs`), or
/// `None` when the clock reads before the epoch.  Nothing is promised about
/// the value: it is whatever the system clock says.
#[verifier::external_body]
pub fn unix_time_seconds() -> Option<u64> {
    match std::time::SystemTime::now().duration_since(std::time::UNIX_EPOCH) {
        Ok(duration) => Some(duration.as_secs()),
        Err(_) => None,
    }
}

/// Nanoseconds since the Unix epoch by the system clock (`as_nanos`), or
/// `None` when the clock reads before the epoch.  Nothing is promised about
/// the value.
#[verifier::external_body]
pub fn unix_time_nanos() -> Option<u128> {
    match std::time::SystemTime::now().duration_since(std::time::UNIX_EPOCH) {
        Ok(duration) => Some(duration.as_nanos()),
        Err(_) => None,
    }
}

/// A clock reading in seconds, where a clock before the epoch counts as 0.
pub fn seconds_or_zero(reading: Option<u64>) -> (r: u64)
    ensures
        r == match reading {
            Some(secs) => secs,
            None => 0,
        },
{
    match reading {
        Some(secs) => secs,
        None => 0,
    }
}

/// A clock reading in nanoseconds, where a clock before the epoch counts as 0.
pub fn nanos_or_zero(reading: Option<u128>) -> (r: u128)
    ensures
        r == match reading {
            Some(nanos) => nanos,
            None => 0,
        },
{
    match reading {
        Some(nanos) => nanos,
        None => 0,
    }
}

/// The textual form `unix:<seconds>` of a timestamp.
pub open spec fn unix_stamp(secs: nat) -> Seq<char> {
    "unix:"@ + decimal(secs)
}

/// Whether `s` is the textual form of some Unix timestamp.
pub open spec fn is_unix_stamp(s: Seq<char>) -> bool {
    exists|secs: u64| s == #[trigger] unix_stamp(secs as nat)
}

/// `unix:<seconds>` for the given number of seconds.
pub fn timestamp_from_seconds(secs: u64) -> (r: String)
    ensures
        r@ == unix_stamp(secs as nat),
{
    with_decimal("unix:", secs as u128)
}

/// The current time as `unix:<seconds>`.
pub fn current_timestamp() -> (r: String)
    ensures
        is_unix_stamp(r@),
{
    let secs = seconds_or_zero(unix_time_seconds());
    let r = timestamp_from_seconds(secs);
    assert(r@ == unix_stamp(secs as nat));
    r
}

} // verus!
