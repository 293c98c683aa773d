//! Log lines: a timestamp, the place in the source, a colored level label
//! and the message, written with ANSI escape codes.
use crate::text::{after_last, last_part, owned, push_decimal, decimal, is_digit};
use vstd::prelude::*;

verus! {

/// How important a log line is.
#[derive(Debug, Clone, Copy, PartialEq, Eq, Structural)]
pub enum LogLevel {
    Info,
    Error,
    Warn,
    Debug,
    Done,
}

/// Resets colors and styles.
pub open spec fn reset() -> Seq<char> {
    "\x1b[0m"@
}

/// The ANSI color of a level.
pub open spec fn level_color(level: LogLevel) -> Seq<char> {
    match level {
        LogLevel::Info => "\x1b[94m"@,
        LogLevel::Error => "\x1b[91m"@,
        LogLevel::Warn => "\x1b[93m"@,
        LogLevel::Debug => "\x1b[95m"@,
        LogLevel::Done => "\x1b[92m"@,
    }
}

/// The four-letter label of a level.
pub open spec fn level_label(level: LogLevel) -> Seq<char> {
    match level {
        LogLevel::Info => "INFO"@,
        LogLevel::Error => "ERRO"@,
        LogLevel::Warn => "WARN"@,
        LogLevel::Debug => "DBUG"@,
        LogLevel::Done => "DONE"@,
    }
}

impl LogLevel {
    /// The ANSI color code of this level (a bright color).
    pub fn color(&self) -> (r: &'static str)
        ensures
            r@ == level_color(*self),
    {
        match self {
            LogLevel::Info => "\x1b[94m",
            LogLevel::Error => "\x1b[91m",
            LogLevel::Warn => "\x1b[93m",
            LogLevel::Debug => "\x1b[95m",
            LogLevel::Done => "\x1b[92m",
        }
    }

    /// The label of this level.
    pub fn label(&self) -> (r: &'static str)
        ensures
            r@ == level_label(*self),
    {
        match self {
            LogLevel::Info => "INFO",
            LogLevel::Error => "ERRO",
            LogLevel::Warn => "WARN",
            LogLevel::Debug => "DBUG",
            LogLevel::Done => "DONE",
        }
    }
}

/// A log line: the underlined grey timestamp, the underlined grey file name
/// (after its last `/`) and line number, the bold colored label in
/// brackets, and the message.
pub open spec fn log_line_spec(
    level: LogLevel,
    timestamp: Seq<char>,
    message: Seq<char>,
    file: Seq<char>,
    line: u32,
) -> Seq<char> {
    "\x1b[4m"@ + "\x1b[90m"@ + timestamp + reset() + " "@ + "\x1b[4m"@ + "\x1b[90m"@ + file.skip(
        after_last(file, '/'),
    ) + ":"@ + decimal(line as nat) + reset() + " "@ + "\x1b[1m"@ + level_color(level) + "["@
        + level_label(level) + "]"@ + reset() + " "@ + message
}

/// The log line for `message` from `file` at `line`, stamped `timestamp`.
pub fn log_line(level: LogLevel, timestamp: &str, message: &str, file: &str, line: u32) -> (r: String)
    ensures
        r@ == log_line_spec(level, timestamp@, message@, file@, line),
{
    let mut r = owned("\x1b[4m");
    r.append("\x1b[90m");
    r.append(timestamp);
    r.append("\x1b[0m");
    r.append(" ");
    r.append("\x1b[4m");
    r.append("\x1b[90m");
    r.append(last_part(file, '/').as_str());
    r.append(":");
    push_decimal(&mut r, line as u64);
    r.append("\x1b[0m");
    r.append(" ");
    r.append("\x1b[1m");
    r.append(level.color());
    r.append("[");
    r.append(level.label());
    r.append("]");
    r.append("\x1b[0m");
    r.append(" ");
    r.append(message);
    r
}

/// A time of day written `HH:MM:SS`: eight characters, two digits each
/// for hour, minute and second, with `:` between them.
pub open spec fn clock_time_shape(t: Seq<char>) -> bool {
    &&& t.len() == 8
    &&& t[2] == ':' && t[5] == ':'
    &&& is_digit(t[0]) && is_digit(t[1])
    &&& is_digit(t[3]) && is_digit(t[4])
    &&& is_digit(t[6]) && is_digit(t[7])
}

/// The local time of day as `HH:MM:SS`, by `chrono::Local::now` and
/// chrono's `format`. Which time it is depends on the clock and the time
/// zone; what is claimed is only the shape that chrono documents for
/// `%H:%M:%S` (each field zero-padded to two digits).
#[verifier::external_body]
fn format_timestamp() -> (r: String)
    ensures
        clock_time_shape(r@),
{
    chrono::Local::now().format("%H:%M:%S").to_string()
}

/// The log line for `message` from `file` at `line`, stamped with the
/// current time of day; the caller prints it.
pub fn log_internal(level: LogLevel, message: &str, file: &str, line: u32) -> (r: String)
    ensures
        exists|t: Seq<char>|
            clock_time_shape(t) && #[trigger] log_line_spec(level, t, message@, file@, line) == r@,
{
    let timestamp = format_timestamp();
    let r = log_line(level, timestamp.as_str(), message, file, line);
    assert(log_line_spec(level, timestamp@, message@, file@, line) == r@);
    r
}

} // verus!
