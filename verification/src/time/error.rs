//! The failures of the temporal conversion engine.

use vstd::prelude::*;
use crate::text::{push_signed_decimal, signed_decimal};

verus! {

/// Why a conversion failed. Every failure is decided by the inputs alone.
#[derive(Clone, Debug, PartialEq, Eq)]
pub enum TimeError {
    /// The name is not in the timezone database.
    InvalidTimezone(String),
    /// The number of seconds lies outside the calendar's range.
    InvalidTimestamp(i64),
    /// The date string does not follow the pattern; `detail` is the
    /// parser's own account.
    DateParseError { date: String, pattern: String, detail: String },
    /// The pattern asks for something the parsed value cannot show.
    UnrenderablePattern(String),
}

/// The mathematical content of a [`TimeError`].
pub ghost enum TimeFailure {
    InvalidTimezone(Seq<char>),
    InvalidTimestamp(int),
    DateParseError { date: Seq<char>, pattern: Seq<char>, detail: Seq<char> },
    UnrenderablePattern(Seq<char>),
}

impl TimeFailure {
    /// The text shown to the user for this failure.
    pub open spec fn message(self) -> Seq<char> {
        match self {
            TimeFailure::InvalidTimezone(name) => "Timezone '"@ + name
                + "' is invalid! Run 'dx time tz' to list all available timezones"@,
            TimeFailure::InvalidTimestamp(secs) => "Timestamp '"@ + signed_decimal(secs)
                + "' is invalid!"@,
            TimeFailure::DateParseError { date, pattern, detail } => "Failed to parse date '"@
                + date + "' with format '"@ + pattern + "'! "@ + detail,
            TimeFailure::UnrenderablePattern(pattern) => "Format '"@ + pattern
                + "' cannot be applied to the parsed date!"@,
        }
    }
}

impl View for TimeError {
    type V = TimeFailure;

    open spec fn view(&self) -> TimeFailure {
        match self {
            TimeError::InvalidTimezone(name) => TimeFailure::InvalidTimezone(name@),
            TimeError::InvalidTimestamp(secs) => TimeFailure::InvalidTimestamp(*secs as int),
            TimeError::DateParseError { date, pattern, detail } => TimeFailure::DateParseError {
                date: date@,
                pattern: pattern@,
                detail: detail@,
            },
            TimeError::UnrenderablePattern(pattern) => TimeFailure::UnrenderablePattern(pattern@),
        }
    }
}

impl TimeError {
    /// The text shown to the user for this failure.
    pub fn message(&self) -> (text: String)
        ensures
            text@ == self@.message(),
    {
        let mut text = String::new();
        match self {
            TimeError::InvalidTimezone(name) => {
                text.append("Timezone '");
                text.append(name.as_str());
                text.append("' is invalid! Run 'dx time tz' to list all available timezones");
            },
            TimeError::InvalidTimestamp(secs) => {
                text.append("Timestamp '");
                push_signed_decimal(&mut text, *secs);
                text.append("' is invalid!");
            },
            TimeError::DateParseError { date, pattern, detail } => {
                text.append("Failed to parse date '");
                text.append(date.as_str());
                text.append("' with format '");
                text.append(pattern.as_str());
                text.append("'! ");
                text.append(detail.as_str());
            },
            TimeError::UnrenderablePattern(pattern) => {
                text.append("Format '");
                text.append(pattern.as_str());
                text.append("' cannot be applied to the parsed date!");
            },
        }
        text
    }
}

/// The mathematical content of an operation's outcome: the characters of
/// the text, or the content of the failure.
pub open spec fn outcome(r: Result<String, TimeError>) -> Result<Seq<char>, TimeFailure> {
    match r {
        Ok(text) => Ok(text@),
        Err(e) => Err(e@),
    }
}

} // verus!
