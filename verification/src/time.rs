//! Plain-integer time helpers. Timestamps are Unix seconds; the only thing
//! the clock itself provides is the current timestamp, behind a wrapper.

use vstd::prelude::*;

verus! {

/// Wall-clock hour and minute of day in the UTC+8 zone.
#[derive(Debug, Clone, Copy, PartialEq, Eq, Structural)]
pub struct ClockTime {
    pub hour: u8,
    pub minute: u8,
}

/// Relies on `std::time::SystemTime::now` and `duration_since`: the
/// current Unix timestamp in seconds, read as zero when the system clock
/// is set before the epoch, so the call returns on every clock reading.
/// Nothing is promised of the clock's value.
#[verifier::external_body]
pub(crate) fn now_timestamp() -> i64 {
    match std::time::SystemTime::now().duration_since(std::time::UNIX_EPOCH) {
        Ok(since_epoch) => since_epoch.as_secs() as i64,
        Err(_) => 0,
    }
}

/// The wall-clock time of day in UTC+8 for a Unix timestamp.
pub fn timestamp_to_datetime_utc8(ts: u64) -> (t: ClockTime)
    ensures
        t.hour == (ts as int / 3600 + 8) % 24,
        t.minute == ts as int % 3600 / 60,
        t.hour < 24,
        t.minute < 60,
{
    let hour: u64 = (ts / 3600 + 8) % 24;
    let minute: u64 = ts % 3600 / 60;
    ClockTime { hour: hour as u8, minute: minute as u8 }
}

/// Whole minutes contained in a span of `ts` seconds.
pub fn timestamp_to_time_minutes(ts: u64) -> (m: u64)
    ensures
        m == ts as int / 60,
{
    ts / 60
}

/// Whole minutes elapsed from `start_ts` to `now_ts`; zero when the clock
/// reads earlier than the start.
pub fn duration_between(start_ts: u64, now_ts: u64) -> (m: u64)
    ensures
        m == if now_ts >= start_ts {
            (now_ts - start_ts) / 60
        } else {
            0
        },
{
    if now_ts >= start_ts {
        timestamp_to_time_minutes(now_ts - start_ts)
    } else {
        0
    }
}

/// Whole minutes elapsed from `start_ts` to now. The result depends on the
/// clock; a clock reading before `start_ts` yields zero.
pub fn duration(start_ts: u64) -> u64 {
    let now: i64 = now_timestamp();
    let now_u: u64 = if now >= 0 {
        now as u64
    } else {
        0
    };
    duration_between(start_ts, now_u)
}

/// A span of minutes split into whole hours and leftover minutes, as a
/// duration is displayed.
pub fn duration_parts(total_minutes: u64) -> (p: (u64, u64))
    ensures
        p.0 == total_minutes as int / 60,
        p.1 == total_minutes as int % 60,
        p.1 < 60,
{
    (total_minutes / 60, total_minutes % 60)
}

} // verus!
