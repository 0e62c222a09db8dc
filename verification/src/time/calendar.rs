//! The calendar the engine relies on: instants, wall-clock values, and the
//! `chrono` operations that parse, render and convert them.
//!
//! Calendar arithmetic, pattern parsing and pattern rendering are `chrono`'s.
//! Each of its operations used here has a name below for what it returns, so
//! that the engine's contracts can say exactly which `chrono` result a
//! conversion hands on.

use vstd::prelude::*;
use chrono::{Datelike, TimeZone, Timelike};
use crate::text::optional_view;

verus! {

/// The epoch seconds of the first second of the first day `chrono` can
/// hold, January 1 of the year -262143.
pub const MIN_EPOCH_SECONDS: i64 = -8_334_601_228_800;

/// The epoch seconds of the last second of the last day `chrono` can hold,
/// December 31 of the year 262142.
pub const MAX_EPOCH_SECONDS: i64 = 8_210_266_876_799;

/// The first year `chrono` can hold.
pub const MIN_YEAR: i32 = -262_143;

/// The last year `chrono` can hold.
pub const MAX_YEAR: i32 = 262_142;

/// Whether a count of seconds since the epoch falls on a date and time the
/// calendar can hold.
pub open spec fn representable(secs: int) -> bool {
    MIN_EPOCH_SECONDS <= secs <= MAX_EPOCH_SECONDS
}

/// Whether a year of the proleptic Gregorian calendar has a February 29.
pub open spec fn is_leap_year(year: int) -> bool {
    year % 4 == 0 && (year % 100 != 0 || year % 400 == 0)
}

/// The number of days of a month, counted from 1 for January.
pub open spec fn days_in_month(year: int, month: int) -> int {
    if month == 2 {
        if is_leap_year(year) {
            29
        } else {
            28
        }
    } else if month == 4 || month == 6 || month == 9 || month == 11 {
        30
    } else {
        31
    }
}

/// A day in the proleptic Gregorian calendar.
#[derive(Clone, Copy, Debug, PartialEq, Eq, Structural)]
pub struct CalendarDate {
    pub year: i32,
    pub month: u32,
    pub day: u32,
}

/// Wall-clock fields without a zone. A leap second is held as second 59
/// with a nanosecond count of a billion or more.
#[derive(Clone, Copy, Debug, PartialEq, Eq, Structural)]
pub struct CalendarDateTime {
    pub date: CalendarDate,
    pub hour: u32,
    pub minute: u32,
    pub second: u32,
    pub nanosecond: u32,
}

/// Wall-clock fields together with their distance from UTC in seconds,
/// positive to the east.
#[derive(Clone, Copy, Debug, PartialEq, Eq, Structural)]
pub struct OffsetDateTime {
    pub local: CalendarDateTime,
    pub offset_seconds: i32,
}

impl CalendarDate {
    /// The day exists and its year is in the calendar's range.
    pub open spec fn is_valid(self) -> bool {
        &&& MIN_YEAR <= self.year <= MAX_YEAR
        &&& 1 <= self.month <= 12
        &&& 1 <= self.day <= days_in_month(self.year as int, self.month as int)
    }

    /// The first moment of the day.
    pub open spec fn midnight(self) -> CalendarDateTime {
        CalendarDateTime { date: self, hour: 0, minute: 0, second: 0, nanosecond: 0 }
    }

    /// The first moment of the day.
    pub fn at_midnight(&self) -> (start: CalendarDateTime)
        ensures
            start == self.midnight(),
            self.is_valid() ==> start.is_valid(),
    {
        CalendarDateTime { date: *self, hour: 0, minute: 0, second: 0, nanosecond: 0 }
    }
}

impl CalendarDateTime {
    /// The day exists and the time of day is one a clock can show.
    pub open spec fn is_valid(self) -> bool {
        &&& self.date.is_valid()
        &&& self.hour < 24
        &&& self.minute < 60
        &&& self.second < 60
        &&& self.nanosecond < 2_000_000_000
        &&& self.nanosecond >= 1_000_000_000 ==> self.second == 59
    }
}

impl OffsetDateTime {
    /// The wall-clock fields are valid and the offset is less than a day.
    pub open spec fn is_valid(self) -> bool {
        &&& self.local.is_valid()
        &&& -86_400 < self.offset_seconds < 86_400
    }
}

/// What `DateTime::to_rfc3339` returns for the UTC date and time that lies
/// `secs` seconds from the epoch.
pub uninterp spec fn rfc3339_utc(secs: int) -> Seq<char>;

/// What `DateTime::parse_from_str` returns for a date string and a
/// pattern: the parsed fields and offset, or the text of the parse error.
pub uninterp spec fn parsed_with_offset(date: Seq<char>, pattern: Seq<char>) -> Result<
    OffsetDateTime,
    Seq<char>,
>;

/// What `NaiveDateTime::parse_from_str` returns for a date string and a
/// pattern: the parsed fields, or the text of the parse error.
pub uninterp spec fn parsed_date_time(date: Seq<char>, pattern: Seq<char>) -> Result<
    CalendarDateTime,
    Seq<char>,
>;

/// What `NaiveDate::parse_from_str` returns for a date string and a
/// pattern: the parsed day, or the text of the parse error.
pub uninterp spec fn parsed_date(date: Seq<char>, pattern: Seq<char>) -> Result<
    CalendarDate,
    Seq<char>,
>;

/// What `DateTime::format` writes for a date and time with an offset, or
/// `None` where the fields do not make a date and time or the pattern
/// cannot be written for it.
pub uninterp spec fn text_of_offset_date_time(
    value: OffsetDateTime,
    pattern: Seq<char>,
) -> Option<Seq<char>>;

/// What `NaiveDateTime::format` writes, or `None` where the fields do not
/// make a date and time or the pattern cannot be written for it.
pub uninterp spec fn text_of_date_time(value: CalendarDateTime, pattern: Seq<char>) -> Option<
    Seq<char>,
>;

/// What `NaiveDate::format` writes, or `None` where the fields do not make
/// a day or the pattern cannot be written for it.
pub uninterp spec fn text_of_date(value: CalendarDate, pattern: Seq<char>) -> Option<Seq<char>>;

/// What `DateTime::timestamp` returns for the given wall-clock fields
/// taken as UTC.
pub uninterp spec fn epoch_seconds_of(value: CalendarDateTime) -> int;

/// The characters of a parse's outcome.
pub open spec fn parse_outcome<T>(r: Result<T, String>) -> Result<T, Seq<char>> {
    match r {
        Ok(v) => Ok(v),
        Err(detail) => Err(detail@),
    }
}

/// `chrono::Utc::now` followed by `DateTime::timestamp`: the seconds on the
/// system clock. A `DateTime` is within the calendar's range, and so is what
/// comes back. `chrono` panics where the clock stands before the epoch.
#[verifier::external_body]
pub(crate) fn clock_epoch_seconds() -> (secs: i64)
    ensures
        representable(secs as int),
{
    chrono::Utc::now().timestamp()
}

/// `DateTime::from_timestamp` with no nanoseconds: `chrono` makes a date
/// and time of `secs` exactly when the day it falls on lies between the
/// first day of the year -262143 and the last day of the year 262142.
#[verifier::external_body]
pub(crate) fn is_representable(secs: i64) -> (yes: bool)
    ensures
        yes == representable(secs as int),
{
    chrono::DateTime::from_timestamp(secs, 0).is_some()
}

/// `DateTime::to_rfc3339` on the UTC date and time of `secs`.
#[verifier::external_body]
pub(crate) fn utc_rfc3339(secs: i64) -> (text: String)
    requires
        representable(secs as int),
    ensures
        text@ == rfc3339_utc(secs as int),
{
    chrono::DateTime::from_timestamp(secs, 0).unwrap().to_rfc3339()
}

/// `chrono::Local::now` followed by `DateTime::format`, written out with
/// `DelayedFormat::write_to`: the present moment in the zone of this
/// machine. The text depends on the clock and on how the machine is set up,
/// so nothing is said of it; `None` where `chrono` cannot write the pattern.
#[verifier::external_body]
pub(crate) fn local_now_text(pattern: &str) -> (text: Option<String>) {
    let mut out = String::new();
    chrono::Local::now().format(pattern).write_to(&mut out).ok()?;
    Some(out)
}

/// `DateTime::parse_from_str`: the fields and the offset of the parsed
/// value, which `chrono` only makes of an existing day, a valid time and an
/// offset of less than a day; or the parse error's text.
#[verifier::external_body]
pub(crate) fn parse_with_offset(date: &str, pattern: &str) -> (r: Result<OffsetDateTime, String>)
    ensures
        parse_outcome(r) == parsed_with_offset(date@, pattern@),
        r matches Ok(v) ==> v.is_valid(),
{
    match chrono::DateTime::parse_from_str(date, pattern) {
        Ok(d) => Ok(OffsetDateTime {
            local: CalendarDateTime {
                date: CalendarDate { year: d.year(), month: d.month(), day: d.day() },
                hour: d.hour(),
                minute: d.minute(),
                second: d.second(),
                nanosecond: d.nanosecond(),
            },
            offset_seconds: d.offset().local_minus_utc(),
        }),
        Err(e) => Err(e.to_string()),
    }
}

/// `NaiveDateTime::parse_from_str`: the fields of the parsed value, which
/// `chrono` only makes of an existing day and a valid time; or the parse
/// error's text.
#[verifier::external_body]
pub(crate) fn parse_date_time(date: &str, pattern: &str) -> (r: Result<CalendarDateTime, String>)
    ensures
        parse_outcome(r) == parsed_date_time(date@, pattern@),
        r matches Ok(v) ==> v.is_valid(),
{
    match chrono::NaiveDateTime::parse_from_str(date, pattern) {
        Ok(d) => Ok(CalendarDateTime {
            date: CalendarDate { year: d.year(), month: d.month(), day: d.day() },
            hour: d.hour(),
            minute: d.minute(),
            second: d.second(),
            nanosecond: d.nanosecond(),
        }),
        Err(e) => Err(e.to_string()),
    }
}

/// `NaiveDate::parse_from_str`: the parsed day, which `chrono` only makes
/// of an existing day; or the parse error's text.
#[verifier::external_body]
pub(crate) fn parse_date(date: &str, pattern: &str) -> (r: Result<CalendarDate, String>)
    ensures
        parse_outcome(r) == parsed_date(date@, pattern@),
        r matches Ok(v) ==> v.is_valid(),
{
    match chrono::NaiveDate::parse_from_str(date, pattern) {
        Ok(d) => Ok(CalendarDate { year: d.year(), month: d.month(), day: d.day() }),
        Err(e) => Err(e.to_string()),
    }
}

/// `DateTime::format` on the date and time with the given fields and
/// offset, written out with `DelayedFormat::write_to`.
#[verifier::external_body]
pub(crate) fn format_offset_date_time(value: &OffsetDateTime, pattern: &str) -> (text: Option<
    String,
>)
    ensures
        optional_view(text) == text_of_offset_date_time(*value, pattern@),
{
    let l = value.local;
    let day = chrono::NaiveDate::from_ymd_opt(l.date.year, l.date.month, l.date.day)?;
    let naive = day.and_hms_nano_opt(l.hour, l.minute, l.second, l.nanosecond)?;
    let offset = chrono::FixedOffset::east_opt(value.offset_seconds)?;
    let moment = offset.from_local_datetime(&naive).single()?;
    let mut out = String::new();
    moment.format(pattern).write_to(&mut out).ok()?;
    Some(out)
}

/// `NaiveDateTime::format` on the date and time with the given fields,
/// written out with `DelayedFormat::write_to`.
#[verifier::external_body]
pub(crate) fn format_date_time(value: &CalendarDateTime, pattern: &str) -> (text: Option<String>)
    ensures
        optional_view(text) == text_of_date_time(*value, pattern@),
{
    let day = chrono::NaiveDate::from_ymd_opt(value.date.year, value.date.month, value.date.day)?;
    let naive = day.and_hms_nano_opt(value.hour, value.minute, value.second, value.nanosecond)?;
    let mut out = String::new();
    naive.format(pattern).write_to(&mut out).ok()?;
    Some(out)
}

/// `NaiveDate::format` on the given day, written out with
/// `DelayedFormat::write_to`.
#[verifier::external_body]
pub(crate) fn format_date(value: &CalendarDate, pattern: &str) -> (text: Option<String>)
    ensures
        optional_view(text) == text_of_date(*value, pattern@),
{
    let day = chrono::NaiveDate::from_ymd_opt(value.year, value.month, value.day)?;
    let mut out = String::new();
    day.format(pattern).write_to(&mut out).ok()?;
    Some(out)
}

/// `NaiveDateTime::and_utc` followed by `DateTime::timestamp`: the seconds
/// from the epoch to the given fields taken as UTC. The fields lie within
/// the calendar's range, and so does the count.
#[verifier::external_body]
pub(crate) fn epoch_seconds(value: &CalendarDateTime) -> (secs: i64)
    requires
        value.is_valid(),
    ensures
        secs == epoch_seconds_of(*value),
        representable(secs as int),
{
    let day = chrono::NaiveDate::from_ymd_opt(value.date.year, value.date.month, value.date.day);
    let time = chrono::NaiveTime::from_hms_nano_opt(
        value.hour,
        value.minute,
        value.second,
        value.nanosecond,
    );
    day.unwrap().and_time(time.unwrap()).and_utc().timestamp()
}

} // verus!
