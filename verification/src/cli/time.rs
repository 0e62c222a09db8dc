use vstd::prelude::*;

verus! {

#[derive(Debug, Clone)]
pub enum TimeMethod {
    /// Get current date and time.
    Now { options: TimeNowOptions },
    /// Get Unix timestamp.
    Unix,
    /// Convert from Unix timestamp.
    FromUnix { options: TimeFromUnixOptions },
    /// Convert to Unix timestamp.
    ToUnix { options: TimeToUnixOptions },
    /// Calculate relative time.
    Relative { options: TimeAgoOptions },
    /// Reformat date.
    Format { options: TimeFormatOptions },
    /// List all available timezones.
    Tz,
}

#[derive(Debug, Clone)]
pub struct TimeNowOptions {
    /// Timezone.
    pub timezone: Option<String>,
}

#[derive(Debug, Clone)]
pub struct TimeFromUnixOptions {
    /// Unix timestamp.
    pub timestamp: i64,
    /// Timezone.
    pub timezone: Option<String>,
}

#[derive(Debug, Clone)]
pub struct TimeToUnixOptions {
    /// Date string.
    pub date: String,
    /// The `strftime` pattern that the date string follows.
    pub format: String,
}

#[derive(Debug, Clone)]
pub struct TimeAgoOptions {
    /// Unix timestamp.
    pub timestamp: i64,
    /// Start timestamp.
    pub start: Option<i64>,
}

#[derive(Debug, Clone)]
pub struct TimeFormatOptions {
    /// Date string.
    pub date: String,
    /// The `strftime` pattern that the date string follows.
    pub from: String,
    /// The `strftime` pattern to write the date in.
    pub target: String,
}

} // verus!
