//! Crash reporting and the daily log file: the verbosity switch, the crash
//! report's text, the day-indexed file name, and which old files are pruned.
//!
//! Opening the file, installing the subscriber and the panic hook, and walking
//! the log directory are the application's part.

use vstd::prelude::*;
use vstd::string::*;
use crate::text;

verus! {

/// Verbosity of the log sink.
#[derive(Debug, Clone, Copy, PartialEq, Eq, Structural)]
pub enum LogLevel {
    Error,
    Warn,
    Info,
    Debug,
    Trace,
}

/// The level a value of the `AUDIO_SWITCHER_LOG` variable selects: trimmed and
/// ASCII-lower-cased, `error` / `warn` / `debug` / `trace` pick that level and
/// anything else (an absent variable reads as empty) keeps `Info`.
pub open spec fn level_spec(raw: Seq<char>) -> LogLevel {
    let v = text::lower_seq(text::trim_seq(raw));
    if v == "error"@ {
        LogLevel::Error
    } else if v == "warn"@ {
        LogLevel::Warn
    } else if v == "debug"@ {
        LogLevel::Debug
    } else if v == "trace"@ {
        LogLevel::Trace
    } else {
        LogLevel::Info
    }
}

/// Parse the `AUDIO_SWITCHER_LOG` value into a verbosity level.
pub fn max_level(raw: &str) -> (r: LogLevel)
    ensures
        r == level_spec(raw@),
{
    let lower = text::to_ascii_lower(text::trim(raw));
    let v = lower.as_str();
    if text::str_eq(v, "error") {
        LogLevel::Error
    } else if text::str_eq(v, "warn") {
        LogLevel::Warn
    } else if text::str_eq(v, "debug") {
        LogLevel::Debug
    } else if text::str_eq(v, "trace") {
        LogLevel::Trace
    } else {
        LogLevel::Info
    }
}

/// Tail appended to the crash report when the log file was never opened:
/// empty when it was.
pub fn failure_note(failure: Option<&str>) -> (r: String)
    ensures
        r@ == (match failure {
            Some(why) => "\n\n(log file unavailable: "@ + why@ + ")"@,
            None => Seq::<char>::empty(),
        }),
{
    match failure {
        Some(why) => {
            let mut s = text::concat("\n\n(log file unavailable: ", why);
            s.append(")");
            s
        },
        None => String::new(),
    }
}

/// The crash dialog's text: the tool name, the panic message, and the note on
/// an unopened log file.
pub fn crash_report(info: &str, failure: Option<&str>) -> (r: String)
    ensures
        r@ == crate::TOOL_DISPLAY_NAME@ + " hit an unexpected error and must exit.\n\n"@ + info@
            + (match failure {
            Some(why) => "\n\n(log file unavailable: "@ + why@ + ")"@,
            None => Seq::<char>::empty(),
        }),
{
    let mut s = text::concat(crate::TOOL_DISPLAY_NAME, " hit an unexpected error and must exit.\n\n");
    s.append(info);
    let note = failure_note(failure);
    s.append(note.as_str());
    s
}

/// How long a daily log file is kept: 14 days, in seconds.
pub const LOG_RETENTION_SECS: u64 = 1_209_600;

/// Seconds in a day.
pub const SECS_PER_DAY: u64 = 86_400;

/// The day index of a wall-clock time (`None`: before the epoch, counted as
/// day zero).
pub fn day_index(secs_since_epoch: Option<u64>) -> (r: u64)
    ensures
        r == (match secs_since_epoch {
            Some(s) => s / SECS_PER_DAY,
            None => 0,
        }),
{
    match secs_since_epoch {
        Some(s) => s / SECS_PER_DAY,
        None => 0,
    }
}

/// The daily log file's name: `{tool-id}-{day}.log`.
pub fn log_file_name(day: u64) -> (r: String)
    ensures
        r@ == crate::TOOL_ID@ + "-"@ + text::decimal(day as nat) + ".log"@,
{
    let mut s = text::concat(crate::TOOL_ID, "-");
    let d = text::u64_to_decimal(day);
    s.append(d.as_str());
    s.append(".log");
    s
}

/// Whether a file name is one of this tool's log files.
pub open spec fn is_own_log_spec(name: Seq<char>) -> bool {
    text::starts_with_seq(name, crate::TOOL_ID@ + "-"@) && text::ends_with_seq(name, ".log"@)
}

/// Whether `age` (seconds and nanoseconds) exceeds the retention window.
pub open spec fn past_retention(secs: u64, nanos: u32) -> bool {
    secs > LOG_RETENTION_SECS || (secs == LOG_RETENTION_SECS && nanos > 0)
}

/// Whether the prune deletes a directory entry: the name must be this tool's
/// (`{tool-id}-*.log`; an unreadable name is kept), and its age since last
/// modification past the retention window (`None`: unreadable, or stamped in
/// the future; kept).
pub fn should_prune(name: Option<&str>, age: Option<(u64, u32)>) -> (r: bool)
    ensures
        r == (match (name, age) {
            (Some(n), Some((s, ns))) => is_own_log_spec(n@) && past_retention(s, ns),
            _ => false,
        }),
{
    match (name, age) {
        (Some(n), Some((secs, nanos))) => {
            let prefix = text::concat(crate::TOOL_ID, "-");
            if !text::starts_with(n, prefix.as_str()) || !text::ends_with(n, ".log") {
                return false;
            }
            secs > LOG_RETENTION_SECS || (secs == LOG_RETENTION_SECS && nanos > 0)
        },
        _ => false,
    }
}

} // verus!
