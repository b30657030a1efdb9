//! How a log line is laid out: the header and the text colour of each level.
use vstd::prelude::*;

verus! {

/// The severity of a log event.
#[derive(Debug, Clone, Copy, PartialEq, Eq, Structural)]
pub enum LogLevel {
    Error,
    Warn,
    Info,
    Debug,
    Trace,
}

/// The most detailed level that is logged.
pub const MAX_LEVEL: LogLevel = LogLevel::Debug;

/// The header of each level: the level's name, right-aligned to five
/// characters, in its colours (ANSI escape sequences).
pub open spec fn level_header_text(level: LogLevel) -> Seq<char> {
    match level {
        LogLevel::Error => "\x1B[1;97;101mERROR"@,
        LogLevel::Warn => " \x1B[1;30;103mWARN"@,
        LogLevel::Info => " \x1B[97;104mINFO"@,
        LogLevel::Debug => "\x1B[30;107mDEBUG"@,
        LogLevel::Trace => "\x1B[97;100mTRACE"@,
    }
}

/// The colour the message of each level is written in (an ANSI escape
/// sequence; debug messages keep the terminal's colour).
pub open spec fn level_text_color_text(level: LogLevel) -> Seq<char> {
    match level {
        LogLevel::Error => "\x1B[91m"@,
        LogLevel::Warn => "\x1B[93m"@,
        LogLevel::Info => "\x1B[94m"@,
        LogLevel::Trace => "\x1B[90m"@,
        LogLevel::Debug => ""@,
    }
}

impl LogLevel {
    /// The header a log line of this level starts with.
    pub fn header(self) -> (header: &'static str)
        ensures
            header@ == level_header_text(self),
    {
        match self {
            LogLevel::Error => "\x1B[1;97;101mERROR",
            LogLevel::Warn => " \x1B[1;30;103mWARN",
            LogLevel::Info => " \x1B[97;104mINFO",
            LogLevel::Debug => "\x1B[30;107mDEBUG",
            LogLevel::Trace => "\x1B[97;100mTRACE",
        }
    }

    /// The colour the message of a log line of this level is written in.
    pub fn text_color(self) -> (color: &'static str)
        ensures
            color@ == level_text_color_text(self),
    {
        match self {
            LogLevel::Error => "\x1B[91m",
            LogLevel::Warn => "\x1B[93m",
            LogLevel::Info => "\x1B[94m",
            LogLevel::Trace => "\x1B[90m",
            LogLevel::Debug => "",
        }
    }
}

} // verus!
