//! Logging rules: which records pass, how a record is written, and where the writer puts it.

use crate::numerals::{decimal, push_decimal};
use crate::text::{join3, join5, same_text};
use vstd::prelude::*;

verus! {

/// How grave a record is: `Error` the gravest.
#[derive(Clone, Copy, Debug, PartialEq, Eq, Structural)]
pub enum LogLevel {
    Error,
    Warn,
    Info,
    Debug,
    Trace,
}

/// Up to which level records pass; `Off` lets none pass.
#[derive(Clone, Copy, Debug, PartialEq, Eq, Structural)]
pub enum LogLevelFilter {
    Off,
    Error,
    Warn,
    Info,
    Debug,
    Trace,
}

/// The rank of a level: 1 for `Error`, up to 5 for `Trace`.
pub open spec fn level_rank(level: LogLevel) -> int {
    match level {
        LogLevel::Error => 1,
        LogLevel::Warn => 2,
        LogLevel::Info => 3,
        LogLevel::Debug => 4,
        LogLevel::Trace => 5,
    }
}

/// The highest rank that a filter lets pass: 0 for `Off`, up to 5 for `Trace`.
pub open spec fn filter_rank(filter: LogLevelFilter) -> int {
    match filter {
        LogLevelFilter::Off => 0,
        LogLevelFilter::Error => 1,
        LogLevelFilter::Warn => 2,
        LogLevelFilter::Info => 3,
        LogLevelFilter::Debug => 4,
        LogLevelFilter::Trace => 5,
    }
}

/// The name of a level and a colon, six characters wide.
pub open spec fn padded_level(level: LogLevel) -> Seq<char> {
    match level {
        LogLevel::Error => "Error:"@,
        LogLevel::Warn => "Warn: "@,
        LogLevel::Info => "Info: "@,
        LogLevel::Debug => "Debug:"@,
        LogLevel::Trace => "Trace:"@,
    }
}

/// The name of a level and a colon, six characters wide.
pub fn get_padded_loglevel_string(log_level: LogLevel) -> (padded: String)
    ensures
        padded@ == padded_level(log_level),
{
    match log_level {
        LogLevel::Error => "Error:".to_owned(),
        LogLevel::Warn => "Warn: ".to_owned(),
        LogLevel::Info => "Info: ".to_owned(),
        LogLevel::Debug => "Debug:".to_owned(),
        LogLevel::Trace => "Trace:".to_owned(),
    }
}

/// The record that tells the writer to end the program.
pub open spec fn crash_marker() -> Seq<char> {
    "**INTERNAL** CRASH!!!"@
}

/// The line that a record makes: `<time>: <level> <text>` and a line feed.
pub open spec fn log_line(time: Seq<char>, level: LogLevel, text: Seq<char>) -> Seq<char> {
    time + ": "@ + padded_level(level) + " "@ + text + "\n"@
}

/// The front end of the log: it decides which records pass, and writes them as lines.
#[derive(Clone, Copy, Debug)]
pub struct Logger {
    max_level: LogLevelFilter,
}

impl Logger {
    /// The filter that the logger was made with.
    pub closed spec fn limit(&self) -> LogLevelFilter {
        self.max_level
    }

    /// Whether a record of this level passes.
    pub open spec fn lets_through(&self, level: LogLevel) -> bool {
        level_rank(level) <= filter_rank(self.limit())
    }

    /// What goes to the writer for a record: nothing where the record does not pass; the
    /// crash marker as it is, where it comes as an error; else the line of the record.
    pub open spec fn logged(&self, time: Seq<char>, level: LogLevel, text: Seq<char>) -> Option<
        Seq<char>,
    > {
        if !self.lets_through(level) {
            None
        } else if text == crash_marker() && level == LogLevel::Error {
            Some(text)
        } else {
            Some(log_line(time, level, text))
        }
    }

    /// A logger that lets records pass up to `max_level`.
    pub fn new(max_level: &LogLevelFilter) -> (logger: Logger)
        ensures
            logger.limit() == *max_level,
    {
        Logger { max_level: *max_level }
    }

    /// Whether a record of this level passes.
    pub fn enabled(&self, level: LogLevel) -> (passes: bool)
        ensures
            passes == self.lets_through(level),
    {
        let rank: u8 = match level {
            LogLevel::Error => 1,
            LogLevel::Warn => 2,
            LogLevel::Info => 3,
            LogLevel::Debug => 4,
            LogLevel::Trace => 5,
        };
        let limit: u8 = match self.max_level {
            LogLevelFilter::Off => 0,
            LogLevelFilter::Error => 1,
            LogLevelFilter::Warn => 2,
            LogLevelFilter::Info => 3,
            LogLevelFilter::Debug => 4,
            LogLevelFilter::Trace => 5,
        };
        rank <= limit
    }

    /// What goes to the writer for a record that was made at `time_and_date`.
    pub fn log(&self, time_and_date: &str, level: LogLevel, text: &str) -> (message: Option<String>)
        ensures
            match message {
                Some(m) => self.logged(time_and_date@, level, text@) == Some(m@),
                None => self.logged(time_and_date@, level, text@) is None,
            },
    {
        if !self.enabled(level) {
            return None;
        }
        let is_error = match level {
            LogLevel::Error => true,
            _ => false,
        };
        if is_error && same_text(text, "**INTERNAL** CRASH!!!") {
            return Some(text.to_owned());
        }
        let padded = get_padded_loglevel_string(level);
        let mut line = join5(time_and_date, ": ", padded.as_str(), " ", text);
        line.append("\n");
        Some(line)
    }
}

/// What the writer does with a message.
#[derive(Clone, Copy, Debug, PartialEq, Eq, Structural)]
pub enum LogTarget {
    /// End the program: the crash marker came as an error.
    Exit,
    /// Write to the log of errors.
    ErrorFile,
    /// Write to the log of messages.
    MessageFile,
}

/// What the writer does with a message of a level.
pub open spec fn log_target(log: Seq<char>, level: LogLevel) -> LogTarget {
    if level == LogLevel::Error {
        if log == crash_marker() {
            LogTarget::Exit
        } else {
            LogTarget::ErrorFile
        }
    } else {
        LogTarget::MessageFile
    }
}

/// Decides `log_target`.
pub fn route_log(log: &str, level: LogLevel) -> (target: LogTarget)
    ensures
        target == log_target(log@, level),
{
    match level {
        LogLevel::Error => {
            if same_text(log, "**INTERNAL** CRASH!!!") {
                LogTarget::Exit
            } else {
                LogTarget::ErrorFile
            }
        },
        _ => LogTarget::MessageFile,
    }
}

/// Whether a log file of `file_len` bytes is over the limit of `log_size` megabytes: whether
/// it holds more full megabytes than that.
pub fn needs_rotate(file_len: u64, log_size: u64) -> (rotate: bool)
    ensures
        rotate == (file_len as int / 1000000 > log_size as int),
{
    file_len / 1000000 > log_size
}

/// `<variant>_<date>_<counter>.log`
pub open spec fn logfile_name_of(variant: Seq<char>, date: Seq<char>, counter: u64) -> Seq<char> {
    variant + "_"@ + date + "_"@ + decimal(counter as nat) + ".log"@
}

/// The name of the log file of a variant and a date with a counter.
pub fn logfile_name(variant: &str, date: &str, counter: u64) -> (name: String)
    ensures
        name@ == logfile_name_of(variant@, date@, counter),
{
    let mut name = join3(variant, "_", date);
    name.append("_");
    push_decimal(&mut name, counter);
    name.append(".log");
    name
}

/// The last line of a log file that was rotated: it names the file that follows.
pub fn rotation_notice(next_file: &str) -> (notice: String)
    ensures
        notice@ == "***INFO: Log has been rotated, further messages are in "@ + next_file@,
{
    let mut notice = "***INFO: Log has been rotated, further messages are in ".to_owned();
    notice.append(next_file);
    notice
}

} // verus!
