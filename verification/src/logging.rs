//! Lines for the terminal log.

use crate::colour_codes::{append_coloured, coloured, ColourCode};
use crate::ui::LogEntry;
use vstd::prelude::*;
use vstd::string::*;

verus! {

/// The pattern by which the time of a log line is written: date, a bar, time
/// of day.
pub open spec fn timestamp_pattern() -> Seq<char> {
    "%Y-%m-%d | %H:%M:%S"@
}

/// The name of a severity, padded on the left to eight characters.
pub open spec fn severity_name(severity: ColourCode) -> Seq<char> {
    match severity {
        ColourCode::Reset => "   Reset"@,
        ColourCode::Info => "    Info"@,
        ColourCode::Field => "   Field"@,
        ColourCode::Error => "   Error"@,
        ColourCode::Warning => " Warning"@,
        ColourCode::Caution => " Caution"@,
        ColourCode::Success => " Success"@,
        ColourCode::Location => "Location"@,
    }
}

/// The log line that says `message` under `severity` at the time written as
/// `timestamp`.
pub open spec fn log_line(timestamp: Seq<char>, message: Seq<char>, severity: ColourCode) -> Seq<
    char,
> {
    "[ "@ + timestamp + " ]  => "@ + coloured(severity, severity_name(severity)) + ": "@ + message
}

/// `chrono::offset::Local::now`, written by `DateTime::format` with the
/// pattern of a log line. The text depends on the clock and on the time zone
/// of the machine, so nothing is said of it.
#[verifier::external_body]
fn local_time(pattern: &str) -> (timestamp: String)
    requires
        pattern@ == timestamp_pattern(),
{
    chrono::offset::Local::now().format(pattern).to_string()
}

/// The name of a severity, padded on the left to eight characters.
fn severity_text(severity: ColourCode) -> (name: &'static str)
    ensures
        name@ == severity_name(severity),
{
    match severity {
        ColourCode::Reset => "   Reset",
        ColourCode::Info => "    Info",
        ColourCode::Field => "   Field",
        ColourCode::Error => "   Error",
        ColourCode::Warning => " Warning",
        ColourCode::Caution => " Caution",
        ColourCode::Success => " Success",
        ColourCode::Location => "Location",
    }
}

/// The log line that says `message` under `severity` at the time written as
/// `timestamp`.
pub fn format_log_message(timestamp: &str, message: &str, severity: ColourCode) -> (line: String)
    ensures
        line@ == log_line(timestamp@, message@, severity),
{
    let mut line = String::from_str("[ ");
    line.append(timestamp);
    line.append(" ]  => ");
    append_coloured(&mut line, severity, severity_text(severity));
    line.append(": ");
    line.append(message);
    line
}

/// The log line that says `message` under `severity` now, by the clock and
/// the time zone of the machine.
pub fn create_log_message(message: &str, severity: ColourCode) -> (line: String)
    ensures
        exists|timestamp: Seq<char>| line@ == log_line(timestamp, message@, severity),
{
    let timestamp = local_time("%Y-%m-%d | %H:%M:%S");
    format_log_message(timestamp.as_str(), message, severity)
}

/// The log line of `entry`, now.
pub fn log_entry_line(entry: &LogEntry) -> (line: String)
    ensures
        exists|timestamp: Seq<char>| line@ == log_line(timestamp, entry@.message, entry@.severity),
{
    let line = create_log_message(entry.message.as_str(), entry.severity);
    proof {
        let timestamp = choose|timestamp: Seq<char>|
            line@ == log_line(timestamp, entry.message@, entry.severity);
        assert(line@ == log_line(timestamp, entry@.message, entry@.severity));
    }
    line
}

} // verus!
