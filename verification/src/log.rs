//! Diagnostic lines. The library writes nothing: an operation that has
//! something to report hands the lines back, and the caller prints them.

use crate::error::{translated, ErrorView, HsaError};
use crate::status::Status;
use crate::text::joined;
use vstd::prelude::*;

verus! {

/// How grave a diagnostic line is.
#[derive(Debug, Clone, Copy, PartialEq, Eq, Structural)]
pub enum LogLevel {
    Info,
    Warning,
    Error,
    Debug,
}

/// One diagnostic line: how grave it is, and what it says.
#[derive(Debug, Clone, PartialEq, Eq)]
pub struct LogLine {
    pub level: LogLevel,
    pub message: String,
}

/// A line as a mathematical value.
pub struct LineView {
    pub level: LogLevel,
    pub message: Seq<char>,
}

/// The tag that opens a printed line of a level.
pub open spec fn tag(level: LogLevel) -> Seq<char> {
    match level {
        LogLevel::Info => "[HSA INFO] "@,
        LogLevel::Warning => "[HSA WARN] "@,
        LogLevel::Error => "[HSA ERROR] "@,
        LogLevel::Debug => "[HSA DEBUG] "@,
    }
}

/// The line that reports the outcome of a query: at level info, `label` and
/// the value where there is one; at level error, `failure_label` and the
/// error's message where there is none.
pub open spec fn report(
    outcome: Result<Seq<char>, ErrorView>,
    label: Seq<char>,
    failure_label: Seq<char>,
) -> LineView {
    match outcome {
        Ok(value) => LineView { level: LogLevel::Info, message: label + value },
        Err(error) => LineView { level: LogLevel::Error, message: failure_label + error.display() },
    }
}

/// The views of a list of lines.
pub open spec fn lines(list: Seq<LogLine>) -> Seq<LineView> {
    list.map_values(|line: LogLine| line@)
}

/// The line that reports a release that the runtime refused: at level
/// error, `label` and the message of the translated status. A release that
/// succeeded reports nothing.
pub open spec fn release_line(label: Seq<char>, status: Status) -> Option<LineView> {
    if status.succeeded() {
        None
    } else {
        Some(LineView { level: LogLevel::Error, message: label + translated(status).display() })
    }
}

impl View for LogLine {
    type V = LineView;

    open spec fn view(&self) -> LineView {
        LineView { level: self.level, message: self.message@ }
    }
}

impl LogLine {
    /// A line of level info that reads `label` and then `value`.
    pub fn info(label: &str, value: &str) -> (line: LogLine)
        ensures
            line@ == (LineView { level: LogLevel::Info, message: label@ + value@ }),
    {
        LogLine { level: LogLevel::Info, message: joined(label, value) }
    }

    /// A line of level error that reads `label` and then the message of
    /// `error`.
    pub fn error(label: &str, error: &HsaError) -> (line: LogLine)
        ensures
            line@ == (LineView { level: LogLevel::Error, message: label@ + error@.display() }),
    {
        let text = error.to_string();
        LogLine { level: LogLevel::Error, message: joined(label, text.as_str()) }
    }

    /// The line as it is printed: the tag of its level, then the message.
    pub fn render(&self) -> (text: String)
        ensures
            text@ == tag(self.level) + self.message@,
    {
        match self.level {
            LogLevel::Info => log_info(self.message.as_str()),
            LogLevel::Warning => log_warning(self.message.as_str()),
            LogLevel::Error => log_error(self.message.as_str()),
            LogLevel::Debug => joined("[HSA DEBUG] ", self.message.as_str()),
        }
    }
}

/// The printed form of a message at level info.
pub fn log_info(message: &str) -> (text: String)
    ensures
        text@ == tag(LogLevel::Info) + message@,
{
    joined("[HSA INFO] ", message)
}

/// The printed form of a message at level warning.
pub fn log_warning(message: &str) -> (text: String)
    ensures
        text@ == tag(LogLevel::Warning) + message@,
{
    joined("[HSA WARN] ", message)
}

/// The printed form of a message at level error.
pub fn log_error(message: &str) -> (text: String)
    ensures
        text@ == tag(LogLevel::Error) + message@,
{
    joined("[HSA ERROR] ", message)
}

/// The printed form of a message at level debug, which is printed only
/// where debugging is switched on.
pub fn log_debug(message: &str, enabled: bool) -> (text: Option<String>)
    ensures
        match text {
            Some(t) => enabled && t@ == tag(LogLevel::Debug) + message@,
            None => !enabled,
        },
{
    if enabled {
        Some(joined("[HSA DEBUG] ", message))
    } else {
        None
    }
}

/// Reports the outcome of a release. A resource that the runtime refuses to
/// release is reported and otherwise let go: one failed release does not
/// keep the next from being tried.
pub fn release_report(label: &str, status: Status) -> (line: Option<LogLine>)
    ensures
        match line {
            Some(l) => release_line(label@, status) == Some(l@),
            None => release_line(label@, status) is None,
        },
{
    if status.is_success() {
        None
    } else {
        let error = HsaError::from_status(status);
        Some(LogLine::error(label, &error))
    }
}

} // verus!
