//! Calendar dates and fixed UTC offsets, held as plain integers, and the
//! texts that `chrono` prints for them.
//!
//! A date is the number of its day in the proleptic Gregorian calendar, with
//! 1 January of the year 1 as day 1. Stepping through days and comparing
//! dates is integer arithmetic; only printing goes through `chrono`.

use crate::text::text_of;
use vstd::prelude::*;
use vstd::string::*;

verus! {

/// The last second that has a calendar date here: the end of
/// 31 December 262142, in seconds after the Unix epoch.
pub const MAX_TIMESTAMP: u64 = 8_210_266_876_799;

/// The number of the first day that has a date: 1 January of the year -262143.
pub const MIN_DAY: i32 = -95_746_129;

/// The number of the last day that has a date: 31 December 262142.
pub const MAX_DAY: i32 = 95_745_399;

/// Seconds in a day: a UTC offset stays strictly below it on either side.
pub const DAY_SECONDS: i32 = 86_400;

/// The UTC calendar date of a Unix timestamp as `chrono` prints it with the
/// format `%Y%m%d`; `None` where `chrono` has no date for the timestamp.
pub uninterp spec fn utc_date_text(timestamp: int) -> Option<Seq<char>>;

/// The date of day number `day` as `chrono` prints it with the format
/// `%Y%m%d`; `None` where `chrono` has no date for the number.
pub uninterp spec fn compact_date_text(day: int) -> Option<Seq<char>>;

/// The RFC 3339 text that `chrono` prints for the local time
/// `hour:min:sec` on day number `day` at `offset` seconds east of UTC; `None`
/// where `chrono` rejects one of the parts.
pub uninterp spec fn rfc3339_text(day: int, hour: int, min: int, sec: int, offset: int) -> Option<
    Seq<char>,
>;

/// Calls `chrono::DateTime::from_timestamp` with no nanoseconds, then
/// `format("%Y%m%d")` on the result.
///
/// Assumed, not proved: the text depends on `timestamp` alone, and every
/// timestamp from the epoch up to `MAX_TIMESTAMP` has a date (`chrono` accepts
/// the days of the years -262143 to 262142).
#[verifier::external_body]
pub(crate) fn utc_date(timestamp: i64) -> (r: Option<String>)
    ensures
        text_of(r) == utc_date_text(timestamp as int),
        0 <= timestamp <= MAX_TIMESTAMP ==> r is Some,
{
    Some(chrono::DateTime::from_timestamp(timestamp, 0)?.format("%Y%m%d").to_string())
}

/// Calls `chrono::NaiveDate::from_num_days_from_ce_opt`, then
/// `format("%Y%m%d")` on the result.
///
/// Assumed, not proved: the text depends on `day` alone, and every day from
/// `MIN_DAY` to `MAX_DAY` has a date.
#[verifier::external_body]
pub(crate) fn compact_date(day: i32) -> (r: Option<String>)
    ensures
        text_of(r) == compact_date_text(day as int),
        MIN_DAY <= day <= MAX_DAY ==> r is Some,
{
    Some(chrono::NaiveDate::from_num_days_from_ce_opt(day)?.format("%Y%m%d").to_string())
}

/// Calls `chrono::NaiveDate::from_num_days_from_ce_opt`, `and_hms_opt`,
/// `chrono::FixedOffset::east_opt` and `TimeZone::from_local_datetime`, then
/// `to_rfc3339` on the result.
///
/// Assumed, not proved: the text depends on the five numbers alone; and it
/// exists for a day strictly between `MIN_DAY` and `MAX_DAY`, a time of day
/// with `hour < 24`, `min < 60`, `sec < 60`, and an offset of less than a day
/// (each of the four constructors accepts exactly these, and a shift by less
/// than a day cannot leave the range of dates from such a day).
#[verifier::external_body]
pub(crate) fn make_time_iso8601(day: i32, offset: i32, hour: u32, min: u32, sec: u32) -> (r:
    Option<String>)
    ensures
        text_of(r) == rfc3339_text(day as int, hour as int, min as int, sec as int, offset as int),
        MIN_DAY < day < MAX_DAY && hour < 24 && min < 60 && sec < 60 && -DAY_SECONDS < offset
            < DAY_SECONDS ==> r is Some,
{
    let naive = chrono::NaiveDate::from_num_days_from_ce_opt(day)?.and_hms_opt(hour, min, sec)?;
    let zone = chrono::FixedOffset::east_opt(offset)?;
    Some(chrono::TimeZone::from_local_datetime(&zone, &naive).single()?.to_rfc3339())
}

/// A calendar date.
#[derive(Clone, Copy, Debug, PartialEq, Eq)]
pub struct Date {
    day: i32,
}

impl View for Date {
    type V = int;

    /// The date's day number.
    closed spec fn view(&self) -> int {
        self.day as int
    }
}

impl Date {
    #[verifier::type_invariant]
    spec fn in_range(self) -> bool {
        MIN_DAY <= self.day <= MAX_DAY
    }

    /// The date of day number `day`; `None` outside `MIN_DAY ..= MAX_DAY`.
    pub fn from_days(day: i32) -> (r: Option<Date>)
        ensures
            r is Some <==> MIN_DAY <= day <= MAX_DAY,
            r matches Some(date) ==> date@ == day,
    {
        if MIN_DAY <= day && day <= MAX_DAY {
            Some(Date { day })
        } else {
            None
        }
    }

    /// The date's day number.
    pub fn days(&self) -> (r: i32)
        ensures
            r == self@,
            MIN_DAY <= r <= MAX_DAY,
    {
        proof {
            use_type_invariant(self);
        }
        self.day
    }

    /// The date as eight digits, year first, for a year of four digits.
    pub fn compact(&self) -> (r: String)
        ensures
            compact_date_text(self@) == Some(r@),
    {
        proof {
            use_type_invariant(self);
        }
        match compact_date(self.day) {
            Some(text) => text,
            None => {
                proof {
                    assert(false);
                }
                String::new()
            },
        }
    }
}

/// A fixed offset from UTC, in seconds east of it.
#[derive(Clone, Copy, Debug, PartialEq, Eq)]
pub struct UtcOffset {
    seconds: i32,
}

impl View for UtcOffset {
    type V = int;

    /// Seconds east of UTC.
    closed spec fn view(&self) -> int {
        self.seconds as int
    }
}

impl UtcOffset {
    #[verifier::type_invariant]
    spec fn below_a_day(self) -> bool {
        -DAY_SECONDS < self.seconds < DAY_SECONDS
    }

    /// The offset of `hours` whole hours east of UTC; `None` unless it is
    /// less than a day.
    pub fn from_hours(hours: i32) -> (r: Option<UtcOffset>)
        ensures
            r is Some <==> -24 < hours < 24,
            r matches Some(offset) ==> offset@ == hours * 3600,
    {
        if -24 < hours && hours < 24 {
            Some(UtcOffset { seconds: hours * 3600 })
        } else {
            None
        }
    }

    /// Seconds east of UTC.
    pub fn seconds(&self) -> (r: i32)
        ensures
            r == self@,
            -DAY_SECONDS < r < DAY_SECONDS,
    {
        proof {
            use_type_invariant(self);
        }
        self.seconds
    }
}

/// The two ends of a day's query window at an offset: the local midnight
/// that starts the day, and 23:59:00 of the same day.
pub open spec fn window_text(day: int, offset: int) -> Option<(Seq<char>, Seq<char>)> {
    match (rfc3339_text(day, 0, 0, 0, offset), rfc3339_text(day, 23, 59, 0, offset)) {
        (Some(start), Some(end)) => Some((start, end)),
        _ => None,
    }
}

/// A pair of texts that may be missing, as a value of specifications.
pub open spec fn text_pair_of(pair: Option<(String, String)>) -> Option<(Seq<char>, Seq<char>)> {
    match pair {
        Some(pair) => Some((pair.0@, pair.1@)),
        None => None,
    }
}

/// The window of one day at an offset: the RFC 3339 texts of its start,
/// `00:00:00`, and of its end, `23:59:00`.
///
/// Every date but the first and the last has a window.
pub fn day_window(date: Date, offset: UtcOffset) -> (r: Option<(String, String)>)
    ensures
        text_pair_of(r) == window_text(date@, offset@),
        MIN_DAY < date@ < MAX_DAY ==> r is Some,
{
    let start = make_time_iso8601(date.days(), offset.seconds(), 0, 0, 0);
    let end = make_time_iso8601(date.days(), offset.seconds(), 23, 59, 0);
    match (start, end) {
        (Some(start), Some(end)) => Some((start, end)),
        _ => None,
    }
}

/// The day numbers from `start` up to, not including, `end`: none where
/// `end` does not lie after `start`.
pub open spec fn date_span(start: int, end: int) -> Seq<int> {
    Seq::new(
        if end > start {
            (end - start) as nat
        } else {
            0
        },
        |i: int| start + i,
    )
}

/// The day numbers of a sequence of dates.
pub open spec fn days_of(dates: Seq<Date>) -> Seq<int> {
    Seq::new(dates.len(), |i: int| dates[i]@)
}

/// The days of a span come in ascending order, without gaps, and all of
/// them lie from `start` on and before `end`. A span whose `end` lies after
/// its `start` begins with `start` and has a day for each day between the
/// two; any other span is empty.
pub proof fn lemma_date_span_ascends(start: int, end: int)
    ensures
        end > start ==> date_span(start, end).len() == end - start,
        end > start ==> date_span(start, end)[0] == start,
        end <= start ==> date_span(start, end).len() == 0,
        forall|i: int|
            0 <= i < date_span(start, end).len() - 1 ==> #[trigger] date_span(start, end)[i + 1]
                == date_span(start, end)[i] + 1,
        forall|i: int, j: int|
            0 <= i < j < date_span(start, end).len() ==> date_span(start, end)[i] < date_span(
                start,
                end,
            )[j],
        forall|i: int|
            0 <= i < date_span(start, end).len() ==> start <= #[trigger] date_span(start, end)[i]
                < end,
{
}

/// The dates to process for a range given by its first date and the date
/// after its last, in ascending order. The end date is not part of the
/// range: where it does not lie after the start date, there is no date to
/// process.
pub fn derive_dates(start_date: Date, end_date: Date) -> (dates: Vec<Date>)
    ensures
        days_of(dates@) == date_span(start_date@, end_date@),
{
    proof {
        use_type_invariant(&start_date);
        use_type_invariant(&end_date);
    }
    let mut dates: Vec<Date> = Vec::new();
    let mut next: i32 = start_date.day;
    while next < end_date.day
        invariant
            MIN_DAY <= start_date.day <= next <= MAX_DAY,
            end_date.day <= MAX_DAY,
            next <= end_date.day || next == start_date.day,
            dates@.len() == next - start_date.day,
            forall|i: int| 0 <= i < dates@.len() ==> (#[trigger] dates@[i])@ == start_date.day + i,
        decreases end_date.day - next,
    {
        dates.push(Date { day: next });
        next = next + 1;
    }
    assert(days_of(dates@) =~= date_span(start_date@, end_date@));
    dates
}

} // verus!
