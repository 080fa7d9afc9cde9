//! Log verbosity levels as the configuration names them, their parsing and
//! the command-line verbosity override.

use vstd::prelude::*;
use crate::text;

verus! {

/// A log verbosity level, least to most verbose.
#[derive(Clone, Copy, Debug, PartialEq, Eq, Structural)]
pub enum LogLevel {
    Off,
    Error,
    Warn,
    Info,
    Debug,
    Trace,
}

/// The rank of a level: higher is more verbose.
pub open spec fn level_rank(l: LogLevel) -> int {
    match l {
        LogLevel::Off => 0,
        LogLevel::Error => 1,
        LogLevel::Warn => 2,
        LogLevel::Info => 3,
        LogLevel::Debug => 4,
        LogLevel::Trace => 5,
    }
}

/// The lowercase name of a level.
pub open spec fn spec_level_name(l: LogLevel) -> Seq<char> {
    match l {
        LogLevel::Off => "off"@,
        LogLevel::Error => "error"@,
        LogLevel::Warn => "warn"@,
        LogLevel::Info => "info"@,
        LogLevel::Debug => "debug"@,
        LogLevel::Trace => "trace"@,
    }
}

/// Parse of a level name, ASCII case-insensitive.
pub open spec fn spec_parse_level(s: Seq<char>) -> Option<LogLevel> {
    if text::matches_lowercase(s, "off"@) {
        Some(LogLevel::Off)
    } else if text::matches_lowercase(s, "error"@) {
        Some(LogLevel::Error)
    } else if text::matches_lowercase(s, "warn"@) {
        Some(LogLevel::Warn)
    } else if text::matches_lowercase(s, "info"@) {
        Some(LogLevel::Info)
    } else if text::matches_lowercase(s, "debug"@) {
        Some(LogLevel::Debug)
    } else if text::matches_lowercase(s, "trace"@) {
        Some(LogLevel::Trace)
    } else {
        None
    }
}

/// The lowercase name of a level.
pub fn level_name(l: LogLevel) -> (r: &'static str)
    ensures
        r@ == spec_level_name(l),
{
    match l {
        LogLevel::Off => "off",
        LogLevel::Error => "error",
        LogLevel::Warn => "warn",
        LogLevel::Info => "info",
        LogLevel::Debug => "debug",
        LogLevel::Trace => "trace",
    }
}

/// Parse a level name, any ASCII case.
pub fn parse_level(s: &str) -> (r: Option<LogLevel>)
    ensures
        r == spec_parse_level(s@),
{
    if text::str_matches_lowercase(s, "off") {
        Some(LogLevel::Off)
    } else if text::str_matches_lowercase(s, "error") {
        Some(LogLevel::Error)
    } else if text::str_matches_lowercase(s, "warn") {
        Some(LogLevel::Warn)
    } else if text::str_matches_lowercase(s, "info") {
        Some(LogLevel::Info)
    } else if text::str_matches_lowercase(s, "debug") {
        Some(LogLevel::Debug)
    } else if text::str_matches_lowercase(s, "trace") {
        Some(LogLevel::Trace)
    } else {
        None
    }
}

/// The rank of a level, for comparisons.
pub fn rank_of(l: LogLevel) -> (r: u8)
    ensures
        r as int == level_rank(l),
{
    match l {
        LogLevel::Off => 0,
        LogLevel::Error => 1,
        LogLevel::Warn => 2,
        LogLevel::Info => 3,
        LogLevel::Debug => 4,
        LogLevel::Trace => 5,
    }
}

/// The more verbose of two levels.
pub fn level_max(a: LogLevel, b: LogLevel) -> (r: LogLevel)
    ensures
        r == (if level_rank(a) >= level_rank(b) {
            a
        } else {
            b
        }),
{
    if rank_of(a) >= rank_of(b) {
        a
    } else {
        b
    }
}

/// The level the repeated verbose flag asks for: the configured level for
/// no occurrence, `Debug` for one, `Trace` for more.
pub fn verbosity_level(configured: LogLevel, occurrences: u64) -> (r: LogLevel)
    ensures
        r == (if occurrences == 0 {
            configured
        } else if occurrences == 1 {
            LogLevel::Debug
        } else {
            LogLevel::Trace
        }),
{
    if occurrences == 0 {
        configured
    } else if occurrences == 1 {
        LogLevel::Debug
    } else {
        LogLevel::Trace
    }
}

/// The effective level: the more verbose of the configured level and what
/// the verbose flag asks for.
pub fn effective_level(configured: LogLevel, occurrences: u64) -> (r: LogLevel)
    ensures
        ({
            let asked = if occurrences == 0 {
                configured
            } else if occurrences == 1 {
                LogLevel::Debug
            } else {
                LogLevel::Trace
            };
            r == (if level_rank(configured) >= level_rank(asked) {
                configured
            } else {
                asked
            })
        }),
{
    let asked = verbosity_level(configured, occurrences);
    level_max(configured, asked)
}

} // verus!
