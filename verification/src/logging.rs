//! Log levels and how a log line's level tag is written.

use vstd::prelude::*;
use crate::text::push_all;

verus! {

/// The severity of a log line.
#[derive(Debug, Clone, Copy, PartialEq, Eq, Structural)]
pub enum LogLevel {
    Error,
    Warn,
    Info,
    Debug,
    Trace,
}

/// The four-letter abbreviation of a level.
pub open spec fn level_abbr(level: LogLevel) -> Seq<char> {
    match level {
        LogLevel::Error => "ERRO"@,
        LogLevel::Warn => "WARN"@,
        LogLevel::Info => "INFO"@,
        LogLevel::Debug => "DEBG"@,
        LogLevel::Trace => "TRCE"@,
    }
}

/// The ANSI colour that introduces a level's tag.
pub open spec fn level_color(level: LogLevel) -> Seq<char> {
    match level {
        LogLevel::Error => "\x1b[31m"@,
        LogLevel::Warn => "\x1b[33m"@,
        LogLevel::Info => "\x1b[32m"@,
        LogLevel::Debug => "\x1b[34m"@,
        LogLevel::Trace => "\x1b[35m"@,
    }
}

/// The four-letter abbreviation of a level.
pub fn abbr(level: LogLevel) -> (r: &'static str)
    ensures
        r@ == level_abbr(level),
{
    match level {
        LogLevel::Error => "ERRO",
        LogLevel::Warn => "WARN",
        LogLevel::Info => "INFO",
        LogLevel::Debug => "DEBG",
        LogLevel::Trace => "TRCE",
    }
}

/// The plain-text log format: a timestamp, a level tag, then the fields.
pub struct CleanFormat;

/// The level tag of a plain-text log line: `[ABBR] `, coloured by level
/// when the writer understands ANSI escapes.
pub open spec fn level_tag_text(level: LogLevel, ansi: bool) -> Seq<char> {
    if ansi {
        level_color(level) + "["@ + level_abbr(level) + "]"@ + "\x1b[0m "@
    } else {
        "["@ + level_abbr(level) + "] "@
    }
}

impl CleanFormat {
    /// Writes the level tag of a plain-text log line.
    pub fn level_tag(&self, level: LogLevel, ansi: bool) -> (r: String)
        ensures
            r@ == level_tag_text(level, ansi),
    {
        let mut s = String::new();
        if ansi {
            let color = match level {
                LogLevel::Error => "\x1b[31m",
                LogLevel::Warn => "\x1b[33m",
                LogLevel::Info => "\x1b[32m",
                LogLevel::Debug => "\x1b[34m",
                LogLevel::Trace => "\x1b[35m",
            };
            push_all(&mut s, color);
            push_all(&mut s, "[");
            push_all(&mut s, abbr(level));
            push_all(&mut s, "]");
            push_all(&mut s, "\x1b[0m ");
        } else {
            push_all(&mut s, "[");
            push_all(&mut s, abbr(level));
            push_all(&mut s, "] ");
        }
        assert(s@ =~= level_tag_text(level, ansi));
        s
    }
}

} // verus!
