//! Deciding from a format pattern how a date string is to be parsed.
//!
//! A pattern that names a UTC offset or a zone abbreviation is read as a
//! date and time with an offset; one that names a time of day is read as a
//! date and time without a zone; any other pattern is read as a date.

use vstd::prelude::*;
use crate::text::{chars_of, contains, find};

verus! {

/// The way a pattern is parsed and formatted.
#[derive(Clone, Copy, Debug, PartialEq, Eq, Structural)]
pub enum PatternKind {
    /// The pattern carries `%z` or `%Z`: the offset comes from the string.
    OffsetAware,
    /// The pattern carries a time of day and no offset: wall-clock fields,
    /// taken as UTC where an instant is needed.
    NaiveDateTime,
    /// The pattern carries neither: a calendar date, midnight UTC implied
    /// where an instant is needed.
    DateOnly,
}

/// Whether the pattern holds the numeric-offset token `%z` or the
/// zone-abbreviation token `%Z`.
pub open spec fn has_offset_token_spec(pattern: Seq<char>) -> bool {
    contains(pattern, "%z"@) || contains(pattern, "%Z"@)
}

/// Whether the pattern holds one of the time-of-day tokens `%H`, `%M`,
/// `%S` and `%T`.
pub open spec fn has_time_token_spec(pattern: Seq<char>) -> bool {
    contains(pattern, "%H"@) || contains(pattern, "%M"@) || contains(pattern, "%S"@) || contains(
        pattern,
        "%T"@,
    )
}

/// The kind of a pattern: the offset tokens decide first, then the
/// time-of-day tokens.
pub open spec fn kind_of(pattern: Seq<char>) -> PatternKind {
    if has_offset_token_spec(pattern) {
        PatternKind::OffsetAware
    } else if has_time_token_spec(pattern) {
        PatternKind::NaiveDateTime
    } else {
        PatternKind::DateOnly
    }
}

pub struct FormatClassifier {}

impl FormatClassifier {
    /// Whether `pattern` names a UTC offset or a zone abbreviation.
    pub fn has_offset_token(pattern: &str) -> (found: bool)
        ensures
            found == has_offset_token_spec(pattern@),
    {
        let chars = chars_of(pattern);
        find(&chars, &chars_of("%z")) || find(&chars, &chars_of("%Z"))
    }

    /// Whether `pattern` names an hour, a minute, a second or a full time of day.
    pub fn has_time_token(pattern: &str) -> (found: bool)
        ensures
            found == has_time_token_spec(pattern@),
    {
        let chars = chars_of(pattern);
        find(&chars, &chars_of("%H")) || find(&chars, &chars_of("%M")) || find(
            &chars,
            &chars_of("%S"),
        ) || find(&chars, &chars_of("%T"))
    }

    /// The kind of `pattern`.
    pub fn classify(pattern: &str) -> (kind: PatternKind)
        ensures
            kind == kind_of(pattern@),
    {
        if Self::has_offset_token(pattern) {
            PatternKind::OffsetAware
        } else if Self::has_time_token(pattern) {
            PatternKind::NaiveDateTime
        } else {
            PatternKind::DateOnly
        }
    }
}

/// A pattern with `%z` or `%Z` is offset-aware, whatever else it holds; a
/// pattern without them but with `%H`, `%M`, `%S` or `%T` is a date and
/// time without a zone; a pattern with none of the six is a date.
pub proof fn lemma_kind_by_tokens(pattern: Seq<char>)
    ensures
        contains(pattern, "%z"@) || contains(pattern, "%Z"@) ==> kind_of(pattern)
            == PatternKind::OffsetAware,
        !contains(pattern, "%z"@) && !contains(pattern, "%Z"@) && (contains(pattern, "%H"@)
            || contains(pattern, "%M"@) || contains(pattern, "%S"@) || contains(pattern, "%T"@))
            ==> kind_of(pattern) == PatternKind::NaiveDateTime,
        !contains(pattern, "%z"@) && !contains(pattern, "%Z"@) && !contains(pattern, "%H"@)
            && !contains(pattern, "%M"@) && !contains(pattern, "%S"@) && !contains(
            pattern,
            "%T"@,
        ) ==> kind_of(pattern) == PatternKind::DateOnly,
{
}

} // verus!
