//! The server's notion of time: seconds and nanoseconds since the Unix epoch.
use vstd::prelude::*;

verus! {

/// Nanoseconds in twelve hours: a game with no interaction for longer is dropped.
pub const IDLE_LIMIT_NANOS: i128 = 43_200_000_000_000;

/// A point in time: whole seconds since the Unix epoch and the nanoseconds
/// past that second.
#[derive(Clone, Copy, Debug, PartialEq, Eq, Structural)]
pub struct Timestamp {
    pub secs: i64,
    pub nanos: u32,
}

/// A point in time as nanoseconds since the Unix epoch.
pub open spec fn nanos_since_epoch(t: Timestamp) -> int {
    t.secs * 1_000_000_000 + t.nanos
}

/// Nanoseconds from `earlier` to `later` (negative when `later` comes first).
pub fn elapsed_nanos(earlier: Timestamp, later: Timestamp) -> (d: i128)
    ensures
        d == nanos_since_epoch(later) - nanos_since_epoch(earlier),
{
    let secs: i128 = (later.secs as i128) - (earlier.secs as i128);
    let nanos: i128 = (later.nanos as i128) - (earlier.nanos as i128);
    assert(-0x1_0000_0000_0000_0000 <= secs <= 0x1_0000_0000_0000_0000);
    assert(-0x1_0000_0000_0000_0000 * 1_000_000_000 <= secs * 1_000_000_000 <= 0x1_0000_0000_0000_0000 * 1_000_000_000) by (nonlinear_arith)
        requires
            -0x1_0000_0000_0000_0000 <= secs <= 0x1_0000_0000_0000_0000;
    secs * 1_000_000_000 + nanos
}

/// The current time from chrono's `Utc::now`, as `DateTime::timestamp` and
/// `DateTime::timestamp_subsec_nanos`. chrono builds `now` from the system
/// clock's duration since the Unix epoch (it panics on a clock set before
/// 1970), so the seconds are not negative and the nanoseconds are those of a
/// `Duration`, below one second. Which time it is is not stated.
#[verifier::external_body]
pub(crate) fn clock_now() -> (t: Timestamp)
    ensures
        t.secs >= 0,
        t.nanos < 1_000_000_000,
{
    let t = chrono::Utc::now();
    Timestamp { secs: t.timestamp(), nanos: t.timestamp_subsec_nanos() }
}

} // verus!
