//! Events of the companion process and the log entries they become.

use crate::text::{decode_lossy, join_text, lossy_text, optional_text, render_optional};
use vstd::prelude::*;

verus! {

/// One notification from the running companion process.
#[derive(Debug, Clone, PartialEq, Eq)]
pub enum OutputEvent {
    /// A line the process wrote to its standard output.
    StandardOutputLine(Vec<u8>),
    /// A line the process wrote to its standard error.
    StandardErrorLine(Vec<u8>),
    /// A fault reported while the process was being run.
    SpawnOrRuntimeError(String),
    /// The process has exited.
    Terminated { code: Option<i32>, signal: Option<i32> },
    /// Any notification this library has no rule for.
    Unclassified,
}

/// Where a log entry is written.
#[derive(Debug, Clone, Copy, PartialEq, Eq, Structural)]
pub enum LogChannel {
    /// The host application's standard output.
    Output,
    /// The host application's standard error.
    Error,
}

/// One line for the host application's log.
#[derive(Debug, Clone, PartialEq, Eq)]
pub struct LogEntry {
    pub channel: LogChannel,
    pub text: String,
}

impl View for LogEntry {
    type V = (LogChannel, Seq<char>);

    open spec fn view(&self) -> (LogChannel, Seq<char>) {
        (self.channel, self.text@)
    }
}

/// The tag in front of every relayed line and of the termination entry.
pub open spec fn line_tag() -> Seq<char> {
    "[backend] "@
}

/// The tag in front of a reported fault.
pub open spec fn fault_tag() -> Seq<char> {
    "[backend error] "@
}

/// The log entry for a line of standard output whose decoded text is `text`.
pub open spec fn output_line_of(text: Seq<char>) -> (LogChannel, Seq<char>) {
    (LogChannel::Output, line_tag() + text)
}

/// The log entry for a line of standard error whose decoded text is `text`.
pub open spec fn error_line_of(text: Seq<char>) -> (LogChannel, Seq<char>) {
    (LogChannel::Error, line_tag() + text)
}

/// The log entry for a fault with the given message.
pub open spec fn fault_line_of(message: Seq<char>) -> (LogChannel, Seq<char>) {
    (LogChannel::Error, fault_tag() + message)
}

/// The log entry that records how the process ended.
pub open spec fn termination_line_of(code: Option<i32>, signal: Option<i32>) -> (
    LogChannel,
    Seq<char>,
) {
    (
        LogChannel::Output,
        line_tag() + "Process terminated with code: "@ + optional_text(code) + ", signal: "@
            + optional_text(signal),
    )
}

/// The log entry an event is forwarded as; `None` for an event that is
/// consumed without a log entry.
pub open spec fn log_line_of(event: OutputEvent) -> Option<(LogChannel, Seq<char>)> {
    match event {
        OutputEvent::StandardOutputLine(bytes) => Some(output_line_of(lossy_text(bytes@))),
        OutputEvent::StandardErrorLine(bytes) => Some(error_line_of(lossy_text(bytes@))),
        OutputEvent::SpawnOrRuntimeError(message) => Some(fault_line_of(message@)),
        OutputEvent::Terminated { code, signal } => Some(termination_line_of(code, signal)),
        OutputEvent::Unclassified => None,
    }
}

/// Whether the event reports the end of the process.
pub open spec fn is_terminal(event: OutputEvent) -> bool {
    event is Terminated
}

impl OutputEvent {
    /// Whether this event reports the end of the process, after which the
    /// stream yields nothing more.
    pub fn ends_stream(&self) -> (ends: bool)
        ensures
            ends == is_terminal(*self),
    {
        match self {
            OutputEvent::Terminated { .. } => true,
            _ => false,
        }
    }
}

impl LogEntry {
    /// The entry for a line of standard output, already decoded.
    pub fn output_line(text: &str) -> (entry: LogEntry)
        ensures
            entry@ == output_line_of(text@),
    {
        LogEntry { channel: LogChannel::Output, text: join_text("[backend] ", text) }
    }

    /// The entry for a line of standard error, already decoded.
    pub fn error_line(text: &str) -> (entry: LogEntry)
        ensures
            entry@ == error_line_of(text@),
    {
        LogEntry { channel: LogChannel::Error, text: join_text("[backend] ", text) }
    }

    /// The entry for a fault reported while the process was being run.
    pub fn fault(message: &str) -> (entry: LogEntry)
        ensures
            entry@ == fault_line_of(message@),
    {
        LogEntry { channel: LogChannel::Error, text: join_text("[backend error] ", message) }
    }

    /// The entry that records the exit code and the signal of the process.
    pub fn termination(code: Option<i32>, signal: Option<i32>) -> (entry: LogEntry)
        ensures
            entry@ == termination_line_of(code, signal),
    {
        let mut text = String::new();
        text.push_str("[backend] ");
        text.push_str("Process terminated with code: ");
        let shown_code = render_optional(code);
        text.push_str(shown_code.as_str());
        text.push_str(", signal: ");
        let shown_signal = render_optional(signal);
        text.push_str(shown_signal.as_str());
        proof {
            assert(text@ =~= termination_line_of(code, signal).1);
        }
        LogEntry { channel: LogChannel::Output, text }
    }
}

/// Classifies an event: the log entry to forward, or `None` where the
/// event has none. Raw output bytes are decoded lossily.
pub fn classify(event: &OutputEvent) -> (entry: Option<LogEntry>)
    ensures
        match entry {
            Some(e) => log_line_of(*event) == Some(e@),
            None => log_line_of(*event).is_none(),
        },
{
    match event {
        OutputEvent::StandardOutputLine(bytes) => {
            let text = decode_lossy(bytes);
            Some(LogEntry::output_line(text.as_str()))
        },
        OutputEvent::StandardErrorLine(bytes) => {
            let text = decode_lossy(bytes);
            Some(LogEntry::error_line(text.as_str()))
        },
        OutputEvent::SpawnOrRuntimeError(message) => Some(LogEntry::fault(message.as_str())),
        OutputEvent::Terminated { code, signal } => Some(LogEntry::termination(*code, *signal)),
        OutputEvent::Unclassified => None,
    }
}

} // verus!
