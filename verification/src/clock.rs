//! Timestamps: seconds since the Unix epoch, read from the system clock, and
//! the 24-hour window that the history endpoints cover.
use vstd::prelude::*;

use std::time::{Duration, SystemTime, UNIX_EPOCH};

verus! {

#[verifier::external_type_specification]
#[verifier::external_body]
pub struct ExSystemTime(SystemTime);

/// Calls `SystemTime::now`. Nothing is claimed of the reading: it depends on
/// the machine's clock.
#[verifier::external_body]
fn clock_reading() -> SystemTime {
    SystemTime::now()
}

/// Calls `SystemTime::duration_since` with `UNIX_EPOCH`; `None` stands for its
/// error, which it returns when `t` lies before the epoch. Nothing is claimed
/// of the result: it depends on the clock reading.
#[verifier::external_body]
fn since_unix_epoch(t: &SystemTime) -> Option<Duration> {
    t.duration_since(UNIX_EPOCH).ok()
}

/// Calls `Duration::as_secs`. Nothing is claimed of the result (the duration
/// is opaque here).
#[verifier::external_body]
fn whole_seconds(d: &Duration) -> u64 {
    d.as_secs()
}

/// The timestamp for a number of whole seconds since the Unix epoch (`None`
/// when the clock lies before the epoch): the seconds taken as an `i64`.
pub fn timestamp_from(elapsed: Option<u64>) -> (ts: Option<i64>)
    ensures
        ts == match elapsed {
            Some(secs) => Some(secs as i64),
            None => None,
        },
{
    match elapsed {
        Some(secs) => Some(secs as i64),
        None => None,
    }
}

/// The current time in whole seconds since the Unix epoch, or `None` when the
/// system clock lies before the epoch. What it returns depends on the clock;
/// [`timestamp_from`] states how a clock reading becomes the result.
pub fn now() -> Option<i64> {
    let reading = clock_reading();
    let elapsed = match since_unix_epoch(&reading) {
        Some(d) => Some(whole_seconds(&d)),
        None => None,
    };
    timestamp_from(elapsed)
}

/// The timestamp a collector stamps its samples with: the current time, as
/// [`now`] gives it.
pub fn now_ts() -> Option<i64> {
    now()
}

/// The length of the history window, in seconds (24 hours).
pub const HISTORY_WINDOW_SECS: i64 = 86400;

/// The earliest timestamp that a history query ending at `now` covers.
pub fn history_since(now: i64) -> (since: i64)
    requires
        now >= i64::MIN + HISTORY_WINDOW_SECS,
    ensures
        since == now - HISTORY_WINDOW_SECS,
{
    now - HISTORY_WINDOW_SECS
}

} // verus!
