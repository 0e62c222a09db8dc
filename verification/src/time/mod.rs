//! The temporal conversion engine.
//!
//! [`classify`] decides how a format pattern is parsed, [`duration`] breaks a
//! span of seconds into units, and the remaining modules build the
//! conversions on top of a calendar and a timezone database.

pub mod calendar;
pub mod classify;
pub mod convert;
pub mod duration;
pub mod error;
pub mod instant;
pub mod parsed;
pub mod zone;
