//! Date strings read after a pattern, in the three shapes a pattern can
//! ask for, and what is done with the value once it is read.

use vstd::prelude::*;
use crate::time::calendar::{
    epoch_seconds, epoch_seconds_of, format_date, format_date_time, format_offset_date_time,
    parse_date, parse_date_time, parse_with_offset, parsed_date, parsed_date_time,
    parsed_with_offset, text_of_date, text_of_date_time, text_of_offset_date_time, CalendarDate,
    CalendarDateTime, OffsetDateTime,
};
use crate::time::classify::{kind_of, FormatClassifier, PatternKind};
use crate::time::error::{outcome, TimeError, TimeFailure};

verus! {

/// A date string after parsing.
#[derive(Clone, Copy, Debug, PartialEq, Eq, Structural)]
pub enum ParsedDate {
    /// Wall-clock fields with the offset that the string gave.
    WithOffset(OffsetDateTime),
    /// Wall-clock fields without a zone.
    DateTime(CalendarDateTime),
    /// A calendar day.
    Date(CalendarDate),
}

/// What parsing `date` after `pattern` gives with the parser that the
/// pattern's kind selects.
pub open spec fn parsed(date: Seq<char>, pattern: Seq<char>) -> Result<ParsedDate, TimeFailure> {
    match kind_of(pattern) {
        PatternKind::OffsetAware => match parsed_with_offset(date, pattern) {
            Ok(value) => Ok(ParsedDate::WithOffset(value)),
            Err(detail) => Err(TimeFailure::DateParseError { date, pattern, detail }),
        },
        PatternKind::NaiveDateTime => match parsed_date_time(date, pattern) {
            Ok(value) => Ok(ParsedDate::DateTime(value)),
            Err(detail) => Err(TimeFailure::DateParseError { date, pattern, detail }),
        },
        PatternKind::DateOnly => match parsed_date(date, pattern) {
            Ok(value) => Ok(ParsedDate::Date(value)),
            Err(detail) => Err(TimeFailure::DateParseError { date, pattern, detail }),
        },
    }
}

fn parse_failure(date: &str, pattern: &str, detail: String) -> (e: TimeError)
    ensures
        e@ == (TimeFailure::DateParseError { date: date@, pattern: pattern@, detail: detail@ }),
{
    TimeError::DateParseError {
        date: String::from_str(date),
        pattern: String::from_str(pattern),
        detail,
    }
}

impl ParsedDate {
    /// The fields make a date, or a date and time, that exists.
    pub open spec fn is_valid(self) -> bool {
        match self {
            ParsedDate::WithOffset(value) => value.is_valid(),
            ParsedDate::DateTime(value) => value.is_valid(),
            ParsedDate::Date(value) => value.is_valid(),
        }
    }

    /// The seconds from the epoch to the parsed value: the offset is taken
    /// off where the string gave one, the fields count as UTC where it gave
    /// none, and a day counts from its midnight in UTC.
    pub open spec fn epoch(self) -> int {
        match self {
            ParsedDate::WithOffset(value) => epoch_seconds_of(value.local) - value.offset_seconds,
            ParsedDate::DateTime(value) => epoch_seconds_of(value),
            ParsedDate::Date(value) => epoch_seconds_of(value.midnight()),
        }
    }

    /// The parsed value written after `pattern`, or the failure that names
    /// the pattern as one that cannot be written for it.
    pub open spec fn rendered(self, pattern: Seq<char>) -> Result<Seq<char>, TimeFailure> {
        let text = match self {
            ParsedDate::WithOffset(value) => text_of_offset_date_time(value, pattern),
            ParsedDate::DateTime(value) => text_of_date_time(value, pattern),
            ParsedDate::Date(value) => text_of_date(value, pattern),
        };
        match text {
            Some(text) => Ok(text),
            None => Err(TimeFailure::UnrenderablePattern(pattern)),
        }
    }

    /// Reads `date` after `pattern`. The pattern's kind selects the parser;
    /// a string that does not follow the pattern fails with the parser's
    /// account of why.
    pub fn parse(date: &str, pattern: &str) -> (r: Result<ParsedDate, TimeError>)
        ensures
            match r {
                Ok(value) => parsed(date@, pattern@) == Ok::<ParsedDate, TimeFailure>(value)
                    && value.is_valid(),
                Err(e) => parsed(date@, pattern@) == Err::<ParsedDate, TimeFailure>(e@),
            },
    {
        match FormatClassifier::classify(pattern) {
            PatternKind::OffsetAware => match parse_with_offset(date, pattern) {
                Ok(value) => Ok(ParsedDate::WithOffset(value)),
                Err(detail) => Err(parse_failure(date, pattern, detail)),
            },
            PatternKind::NaiveDateTime => match parse_date_time(date, pattern) {
                Ok(value) => Ok(ParsedDate::DateTime(value)),
                Err(detail) => Err(parse_failure(date, pattern, detail)),
            },
            PatternKind::DateOnly => match parse_date(date, pattern) {
                Ok(value) => Ok(ParsedDate::Date(value)),
                Err(detail) => Err(parse_failure(date, pattern, detail)),
            },
        }
    }

    /// The seconds from the epoch to the parsed value.
    pub fn epoch_seconds(&self) -> (secs: i64)
        requires
            self.is_valid(),
        ensures
            secs == self.epoch(),
    {
        match self {
            ParsedDate::WithOffset(value) => epoch_seconds(&value.local) - (
            value.offset_seconds as i64),
            ParsedDate::DateTime(value) => epoch_seconds(value),
            ParsedDate::Date(value) => epoch_seconds(&value.at_midnight()),
        }
    }

    /// Writes the parsed value after `pattern`.
    pub fn render(&self, pattern: &str) -> (r: Result<String, TimeError>)
        ensures
            outcome(r) == self.rendered(pattern@),
    {
        let text = match self {
            ParsedDate::WithOffset(value) => format_offset_date_time(value, pattern),
            ParsedDate::DateTime(value) => format_date_time(value, pattern),
            ParsedDate::Date(value) => format_date(value, pattern),
        };
        match text {
            Some(text) => Ok(text),
            None => Err(TimeError::UnrenderablePattern(String::from_str(pattern))),
        }
    }
}

} // verus!
