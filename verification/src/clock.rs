//! Reading the wall clock as seconds since the Unix epoch.

use vstd::prelude::*;

verus! {

/// One thousand million: the number of nanoseconds in a second.
pub const NANOS_PER_SECOND: u32 = 1_000_000_000;

/// Calls `std::time::SystemTime::now` and measures it against
/// `std::time::UNIX_EPOCH` with `duration_since`.
///
/// Assumed, not proved: the sub-second part that `Duration::subsec_nanos`
/// reports is below one thousand million, on either side of the epoch. `Ok`
/// carries the distance after the epoch, `Err` the distance before it.
#[verifier::external_body]
fn since_epoch() -> (r: Result<(u64, u32), (u64, u32)>)
    ensures
        match r {
            Ok(d) => d.1 < NANOS_PER_SECOND,
            Err(d) => d.1 < NANOS_PER_SECOND,
        },
{
    match std::time::SystemTime::now().duration_since(std::time::UNIX_EPOCH) {
        Ok(d) => Ok((d.as_secs(), d.subsec_nanos())),
        Err(e) => Err((e.duration().as_secs(), e.duration().subsec_nanos())),
    }
}

/// What `now_raw` makes of a clock reading: the side of the epoch (`true` at
/// or after it), the whole seconds and the nanoseconds of the distance.
pub open spec fn raw_reading(reading: Result<(u64, u32), (u64, u32)>) -> (bool, u64, u32) {
    match reading {
        Ok(d) => (true, d.0, d.1),
        Err(d) => (false, d.0, d.1),
    }
}

/// Flattens a clock reading into `(after_epoch, seconds, nanoseconds)`.
pub fn flatten_reading(reading: Result<(u64, u32), (u64, u32)>) -> (r: (bool, u64, u32))
    ensures
        r == raw_reading(reading),
{
    match reading {
        Ok(d) => (true, d.0, d.1),
        Err(d) => (false, d.0, d.1),
    }
}

/// The current time as `(after_epoch, seconds, nanoseconds)`: the distance
/// between now and the Unix epoch, and on which side of it the clock stands.
///
/// The value depends on the clock, so the contract states only what holds of
/// every reading.
pub fn now_raw() -> (r: (bool, u64, u32))
    ensures
        r.2 < NANOS_PER_SECOND,
{
    flatten_reading(since_epoch())
}

/// The Unix timestamp that a raw reading stands for, if it has one: a clock
/// set before the epoch has none.
pub open spec fn timestamp_of(raw: (bool, u64, u32)) -> Option<u64> {
    if raw.0 {
        Some(raw.1)
    } else {
        None
    }
}

/// Turns a raw reading into a Unix timestamp; `None` for a clock before the
/// epoch.
pub fn unix_seconds(raw: (bool, u64, u32)) -> (r: Option<u64>)
    ensures
        r == timestamp_of(raw),
{
    if raw.0 {
        Some(raw.1)
    } else {
        None
    }
}

/// The signed distance from the epoch in whole seconds, negative before it;
/// `None` where the magnitude is not below `i64::MAX`.
pub open spec fn signed_timestamp_of(raw: (bool, u64, u32)) -> Option<int> {
    if raw.1 < i64::MAX {
        if raw.0 {
            Some(raw.1 as int)
        } else {
            Some(-(raw.1 as int))
        }
    } else {
        None
    }
}

/// A signed number of seconds that may be missing, as a value of
/// specifications.
pub open spec fn seconds_of(seconds: Option<i64>) -> Option<int> {
    match seconds {
        Some(s) => Some(s as int),
        None => None,
    }
}

/// Turns a raw reading into signed Unix seconds.
pub fn signed_unix_seconds(raw: (bool, u64, u32)) -> (r: Option<i64>)
    ensures
        seconds_of(r) == signed_timestamp_of(raw),
{
    if raw.1 < 9_223_372_036_854_775_807u64 {
        let magnitude: i64 = raw.1 as i64;
        if raw.0 {
            Some(magnitude)
        } else {
            Some(-magnitude)
        }
    } else {
        None
    }
}

/// The current Unix timestamp in seconds, or `None` when the clock is set
/// before the epoch.
pub fn now() -> (r: Option<u64>) {
    unix_seconds(now_raw())
}

} // verus!
