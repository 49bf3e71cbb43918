//! Log lines: the header of each level, the line written to the log file, and when the log
//! file is rotated.

use crate::calendar::LocalDateTime;
use vstd::prelude::*;

verus! {

/// The size, in bytes, above which the log file is rotated.
pub const MAX_LOG_FILE_BYTES: u64 = 1_000_000;

/// The severity of a log message.
#[derive(Clone, Copy, Debug, PartialEq, Eq)]
pub enum LogLevel {
    Info,
    Warn,
    Error,
    Debug,
}

/// The header that marks a level in the log.
pub open spec fn level_header(level: LogLevel) -> Seq<char> {
    match level {
        LogLevel::Info => "[INFO]"@,
        LogLevel::Warn => "[WARN]"@,
        LogLevel::Error => "[ERROR]"@,
        LogLevel::Debug => "[DEBUG]"@,
    }
}

impl LogLevel {
    /// The header that marks this level in the log.
    pub fn header(&self) -> (header: &'static str)
        ensures
            header@ == level_header(*self),
    {
        match self {
            LogLevel::Info => "[INFO]",
            LogLevel::Warn => "[WARN]",
            LogLevel::Error => "[ERROR]",
            LogLevel::Debug => "[DEBUG]",
        }
    }
}

/// Whether a log file of `len` bytes is rotated before the next line is written.
pub fn needs_rotation(len: u64) -> (rotate: bool)
    ensures
        rotate == (len > MAX_LOG_FILE_BYTES),
{
    len > MAX_LOG_FILE_BYTES
}

/// The name the log file is copied to when it is rotated.
pub fn rotated_file_name(log_file: &str) -> (name: String)
    ensures
        name@ == log_file@ + ".1"@,
{
    let mut name = String::from_str(log_file);
    name.append(".1");
    name
}

/// The text chrono's format `%Y-%m-%d %H:%M:%S` gives for a date and time.
pub uninterp spec fn timestamp_text(day: int, hour: int, minute: int, second: int) -> Seq<char>;

/// chrono `NaiveDateTime::format("%Y-%m-%d %H:%M:%S")` of the date and time `at` (built
/// with `NaiveDate::from_num_days_from_ce_opt` and `and_hms_opt`).
#[verifier::external_body]
fn format_timestamp(at: &LocalDateTime) -> (text: String)
    requires
        at.wf(),
    ensures
        text@ == timestamp_text(at.day as int, at.hour as int, at.minute as int, at.second as int),
{
    chrono::NaiveDate::from_num_days_from_ce_opt(at.day)
        .unwrap()
        .and_hms_opt(at.hour, at.minute, at.second)
        .unwrap()
        .format("%Y-%m-%d %H:%M:%S")
        .to_string()
}

/// The line written to the log file for a message logged at `at`: "[time] header: message".
pub open spec fn log_file_line_text(at: LocalDateTime, level: LogLevel, message: Seq<char>) -> Seq<char> {
    "["@ + timestamp_text(at.day as int, at.hour as int, at.minute as int, at.second as int) + "] "@
        + level_header(level) + ": "@ + message
}

/// Builds the line written to the log file (the line feed is written after it).
pub fn log_file_line(at: &LocalDateTime, level: LogLevel, message: &str) -> (line: String)
    requires
        at.wf(),
    ensures
        line@ == log_file_line_text(*at, level, message@),
{
    let mut line = String::from_str("[");
    let stamp = format_timestamp(at);
    line.append(stamp.as_str());
    line.append("] ");
    line.append(level.header());
    line.append(": ");
    line.append(message);
    line
}

} // verus!
