//! Timestamps reported by the Windows media session.

use vstd::prelude::*;

verus! {

/// 100-nanosecond ticks between 1601-01-01 (the FILETIME epoch) and 1970-01-01.
pub const FILETIME_TO_UNIX_100NS: i64 = 116_444_736_000_000_000;

/// When a FILETIME (100 ns ticks since 1601-01-01 UTC) happened, as a moment
/// on the monotonic clock, given the current wall-clock time and the current
/// monotonic time: the monotonic now, moved back by how long ago the FILETIME
/// was. A FILETIME before 1970 counts as 1970; one in the future, or one
/// further back than the monotonic clock reaches, counts as now.
pub open spec fn filetime_moment(universal_time_100ns: i64, system_now_unix_ns: u128, now: u64) -> u64 {
    let unix_100ns = if universal_time_100ns - FILETIME_TO_UNIX_100NS > 0 {
        universal_time_100ns - FILETIME_TO_UNIX_100NS
    } else {
        0
    };
    let age = system_now_unix_ns - unix_100ns * 100;
    if age < 0 || age > now {
        now
    } else {
        (now - age) as u64
    }
}

/// The position reported by the session is only accurate as of its
/// `LastUpdatedTime`, not as of the poll; this places that time on the
/// monotonic clock the playback model uses.
pub fn filetime_received_at(universal_time_100ns: i64, system_now_unix_ns: u128, now: u64) -> (r:
    u64)
    ensures
        r == filetime_moment(universal_time_100ns, system_now_unix_ns, now),
{
    let since_unix: i128 = (universal_time_100ns as i128) - (FILETIME_TO_UNIX_100NS as i128);
    let unix_100ns: i128 = if since_unix > 0 {
        since_unix
    } else {
        0
    };
    let last_updated_ns: u128 = (unix_100ns as u128) * 100;
    if last_updated_ns > system_now_unix_ns {
        return now;
    }
    let age: u128 = system_now_unix_ns - last_updated_ns;
    if age > now as u128 {
        now
    } else {
        now - (age as u64)
    }
}

/// Whole milliseconds in a span of 100-nanosecond ticks (a `TimeSpan`),
/// rounded toward zero; a negative span counts as zero.
pub fn timespan_ms(ticks_100ns: i64) -> (r: u64)
    ensures
        r == (if ticks_100ns >= 10_000 {
            ticks_100ns / 10_000
        } else {
            0
        }),
{
    if ticks_100ns >= 10_000 {
        (ticks_100ns / 10_000) as u64
    } else {
        0
    }
}

} // verus!
