//! The events that the server broadcasts to its dashboards.

use crate::text::{is_single_line, single_line};
use vstd::prelude::*;

verus! {

/// How verbose a log record is, from the most severe to the most detailed.
#[derive(Clone, Copy, Debug, PartialEq, Eq, Structural)]
pub enum LogLevel {
    Error,
    Warn,
    Info,
    Debug,
    Trace,
}

/// The severity under which a log entry is shown.
#[derive(Clone, Copy, Debug, PartialEq, Eq, Structural)]
pub enum LogSeverity {
    Error,
    Warning,
    Info,
    Debug,
}

impl LogLevel {
    /// The rank of the level: 1 for errors, 5 for traces.
    pub open spec fn rank(self) -> int {
        match self {
            LogLevel::Error => 1,
            LogLevel::Warn => 2,
            LogLevel::Info => 3,
            LogLevel::Debug => 4,
            LogLevel::Trace => 5,
        }
    }

    /// The rank of the level: 1 for errors, 5 for traces.
    pub fn rank_of(self) -> (r: u8)
        ensures
            r == self.rank(),
    {
        match self {
            LogLevel::Error => 1,
            LogLevel::Warn => 2,
            LogLevel::Info => 3,
            LogLevel::Debug => 4,
            LogLevel::Trace => 5,
        }
    }
}

impl LogSeverity {
    /// The severity that stands for a log level. Traces count as debug output.
    pub open spec fn of_level(level: LogLevel) -> LogSeverity {
        match level {
            LogLevel::Error => LogSeverity::Error,
            LogLevel::Warn => LogSeverity::Warning,
            LogLevel::Info => LogSeverity::Info,
            LogLevel::Debug => LogSeverity::Debug,
            LogLevel::Trace => LogSeverity::Debug,
        }
    }

    /// The log level at which an entry of this severity is logged.
    pub open spec fn level(self) -> LogLevel {
        match self {
            LogSeverity::Error => LogLevel::Error,
            LogSeverity::Warning => LogLevel::Warn,
            LogSeverity::Info => LogLevel::Info,
            LogSeverity::Debug => LogLevel::Debug,
        }
    }

    /// The severity that stands for a log level. Traces count as debug output.
    pub fn from_log_level(level: LogLevel) -> (severity: LogSeverity)
        ensures
            severity == LogSeverity::of_level(level),
    {
        match level {
            LogLevel::Error => LogSeverity::Error,
            LogLevel::Warn => LogSeverity::Warning,
            LogLevel::Info => LogSeverity::Info,
            LogLevel::Debug => LogSeverity::Debug,
            LogLevel::Trace => LogSeverity::Debug,
        }
    }

    /// The log level at which an entry of this severity is logged.
    pub fn into_log_level(self) -> (level: LogLevel)
        ensures
            level == self.level(),
    {
        match self {
            LogSeverity::Error => LogLevel::Error,
            LogSeverity::Warning => LogLevel::Warn,
            LogSeverity::Info => LogLevel::Info,
            LogSeverity::Debug => LogLevel::Debug,
        }
    }
}

/// Going from a severity to its log level and back gives the severity again.
pub proof fn lemma_severity_round_trip(severity: LogSeverity)
    ensures
        LogSeverity::of_level(severity.level()) == severity,
{
}

/// One line of log output, with its severity.
#[derive(Debug, PartialEq, Eq)]
pub struct LogEntry {
    pub severity: LogSeverity,
    pub content: String,
}

/// A log entry as a mathematical value.
pub struct LogEntryView {
    pub severity: LogSeverity,
    pub content: Seq<char>,
}

impl View for LogEntry {
    type V = LogEntryView;

    open spec fn view(&self) -> LogEntryView {
        LogEntryView { severity: self.severity, content: self.content@ }
    }
}

impl Clone for LogEntry {
    fn clone(&self) -> (copy: Self)
        ensures
            copy == *self,
    {
        LogEntry { severity: self.severity, content: self.content.clone() }
    }
}

/// A value that another part of the server owns, carried as the JSON text
/// in which it was handed over. The text holds no line break, so that an
/// event which carries it is written on one line. Whether the text is JSON
/// is its producer's matter and is not looked at here.
#[derive(Debug, PartialEq, Eq)]
pub struct Document {
    text: String,
}

impl View for Document {
    type V = Seq<char>;

    closed spec fn view(&self) -> Seq<char> {
        self.text@
    }
}

impl Document {
    #[verifier::type_invariant]
    spec fn on_one_line(&self) -> bool {
        single_line(self.text@)
    }

    /// Takes a text as a document, unless it holds a line break.
    pub fn new(text: String) -> (document: Option<Self>)
        ensures
            match document {
                Some(d) => d@ == text@ && single_line(text@),
                None => !single_line(text@),
            },
    {
        if is_single_line(text.as_str()) {
            Some(Document { text })
        } else {
            None
        }
    }

    /// The text of the document.
    pub fn as_str(&self) -> (text: &str)
        ensures
            text@ == self@,
            single_line(text@),
    {
        proof {
            use_type_invariant(self);
        }
        self.text.as_str()
    }
}

impl Clone for Document {
    fn clone(&self) -> (copy: Self)
        ensures
            copy == *self,
    {
        proof {
            use_type_invariant(self);
        }
        Document { text: self.text.clone() }
    }
}

/// What an event carries. Payloads that other parts of the server own are
/// carried as documents. The kinds that the server itself makes have a
/// variant each; an event of any other kind is carried with the name of its
/// kind, so that a new kind of event passes through to the subscribers.
#[derive(Debug, PartialEq, Eq)]
pub enum EventType {
    /// A log entry.
    Log(LogEntry),
    /// A snapshot of the session.
    Session(Document),
    /// The audio devices of the host.
    AudioDevices(Document),
    /// The registered drivers.
    DriversList(Document),
    /// An event of another kind.
    Other { kind: String, document: Document },
}

/// An event's payload as a mathematical value.
pub enum EventTypeView {
    Log(LogEntryView),
    Session(Seq<char>),
    AudioDevices(Seq<char>),
    DriversList(Seq<char>),
    Other { kind: Seq<char>, document: Seq<char> },
}

impl View for EventType {
    type V = EventTypeView;

    open spec fn view(&self) -> EventTypeView {
        match self {
            EventType::Log(entry) => EventTypeView::Log(entry@),
            EventType::Session(document) => EventTypeView::Session(document@),
            EventType::AudioDevices(document) => EventTypeView::AudioDevices(document@),
            EventType::DriversList(document) => EventTypeView::DriversList(document@),
            EventType::Other { kind, document } => EventTypeView::Other {
                kind: kind@,
                document: document@,
            },
        }
    }
}

impl Clone for EventType {
    fn clone(&self) -> (copy: Self)
        ensures
            copy == *self,
    {
        match self {
            EventType::Log(entry) => EventType::Log(entry.clone()),
            EventType::Session(document) => EventType::Session(document.clone()),
            EventType::AudioDevices(document) => EventType::AudioDevices(document.clone()),
            EventType::DriversList(document) => EventType::DriversList(document.clone()),
            EventType::Other { kind, document } => EventType::Other {
                kind: kind.clone(),
                document: document.clone(),
            },
        }
    }
}

/// A payload with the time at which it was recorded. An event is not
/// changed once it is made.
#[derive(Debug, PartialEq, Eq)]
pub struct Event {
    pub timestamp: String,
    pub payload: EventType,
}

/// An event as a mathematical value.
pub struct EventView {
    pub timestamp: Seq<char>,
    pub payload: EventTypeView,
}

impl View for Event {
    type V = EventView;

    open spec fn view(&self) -> EventView {
        EventView { timestamp: self.timestamp@, payload: self.payload@ }
    }
}

impl Clone for Event {
    fn clone(&self) -> (copy: Self)
        ensures
            copy == *self,
    {
        Event { timestamp: self.timestamp.clone(), payload: self.payload.clone() }
    }
}

impl Event {
    /// Stamps `payload` with `timestamp`.
    pub fn new(timestamp: String, payload: EventType) -> (event: Self)
        ensures
            event.timestamp == timestamp,
            event.payload == payload,
    {
        Event { timestamp, payload }
    }
}

} // verus!
