//! Organizes downloaded video files by movie number and actress: the rules
//! for recognising a movie number in a filename, naming and grouping the
//! result, deciding which failures are worth retrying, and the state that the
//! terminal dashboard renders.

pub mod api;
pub mod config;
pub mod digits;
pub mod error;
pub mod logging;
pub mod number;
pub mod pattern;
pub mod processor;
pub mod scanner;
pub mod scheduler;
pub mod text;
pub mod tui;
