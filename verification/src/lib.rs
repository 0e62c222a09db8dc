//! Developer conversion utilities as a verified library.
//!
//! The heart of the crate is the temporal conversion engine in [`time`]:
//! pattern classification, timezone resolution, duration decomposition and
//! the timestamp conversions built from them.

pub mod cli;
pub mod handlers;
pub mod text;
pub mod time;
pub mod utils;
