use vstd::prelude::*;

verus! {

/// Severity of a log event, from the least to the most severe.
#[derive(Clone, Copy, Debug, PartialEq, Eq, Hash, Structural)]
pub enum LogLevel {
    Trace,
    Debug,
    Info,
    Warn,
    Error,
}

/// A structured log event that a handler asks to have emitted.
///
/// The library only says which events belong to an invocation. Emitting them,
/// and deciding which severities a deployment keeps, is the caller's part.
#[derive(Debug, PartialEq, Eq)]
pub struct LogEvent {
    pub level: LogLevel,
    pub message: String,
}

/// A log event with its message as a sequence of characters.
pub struct LogEventView {
    pub level: LogLevel,
    pub message: Seq<char>,
}

impl View for LogEvent {
    type V = LogEventView;

    open spec fn view(&self) -> LogEventView {
        LogEventView { level: self.level, message: self.message@ }
    }
}

/// The events of a list, each by its view.
pub open spec fn events_view(events: Seq<LogEvent>) -> Seq<LogEventView> {
    Seq::new(events.len(), |i: int| events[i]@)
}

} // verus!
