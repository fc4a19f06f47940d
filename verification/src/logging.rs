//! The sink through which every log record becomes an event.
//!
//! A message that is a JSON object from its first character to its last is
//! an event that its producer has already built; any other message becomes a
//! log entry. [`classify`] reads a message so. A message in the shape of an
//! object that is no event is a fault of its producer: it has no payload,
//! and so nothing here can stamp or publish it.
//!
//! A payload is stamped with the time, written as one line of JSON for the
//! log file, and published on the event bus. Writing the line and
//! publishing the event do not depend on each other.

use crate::bus::Bus;
use crate::event::{Event, EventType, EventTypeView, LogEntry, LogEntryView, LogLevel, LogSeverity};
use crate::text::{ends_with, is_prefix, is_suffix, single_line, starts_with};
use crate::wire::{decode_payload, event_text, payload_of, render_event};
use vstd::prelude::*;
use vstd::string::*;

verus! {

/// Where the lines of the log go.
#[derive(Clone, Copy, Debug, PartialEq, Eq, Structural)]
pub enum SinkTarget {
    /// The session's log file, started anew.
    SessionLog,
    /// A device that swallows what is written to it.
    NullDevice,
    /// The standard output.
    Stdout,
}

/// How the sinks are set up.
#[derive(Clone, Copy, Debug, PartialEq, Eq, Structural)]
pub struct SinkPlan {
    /// The most detailed level that is still recorded.
    pub level: LogLevel,
    /// Where the lines of the log go.
    pub target: SinkTarget,
    /// The most detailed level that is also written to the crash log.
    pub crash_level: LogLevel,
}

/// Where the line of one record is written.
#[derive(Clone, Copy, Debug, PartialEq, Eq, Structural)]
pub struct Destinations {
    /// Whether the record runs through the sink at all: it is then written
    /// to the sink's target and published on the event bus.
    pub sink: bool,
    /// Whether the line is also written to the crash log.
    pub crash_log: bool,
}

/// An event together with the line that records it.
#[derive(Debug)]
pub struct Record {
    pub event: Event,
    pub line: String,
}

/// The format in which events are stamped: hours, minutes, seconds and the
/// nanoseconds since the last whole second.
pub open spec fn timestamp_pattern() -> Seq<char> {
    "%H:%M:%S.%f"@
}

/// Whether a message has the shape of a JSON object.
pub open spec fn is_structured(message: Seq<char>) -> bool {
    is_prefix("{"@, message) && is_suffix("}"@, message)
}

/// The payload that a log record stands for, or `None` for a message in the
/// shape of a JSON object that is not an event.
pub open spec fn classified(message: Seq<char>, level: LogLevel) -> Option<EventTypeView> {
    if is_structured(message) {
        payload_of(message)
    } else {
        Some(
            EventTypeView::Log(
                LogEntryView { severity: LogSeverity::of_level(level), content: message },
            ),
        )
    }
}

/// Whether a filter that lets `filter` and everything more severe pass
/// lets a record of `level` pass.
pub open spec fn passes(filter: LogLevel, level: LogLevel) -> bool {
    level.rank() <= filter.rank()
}

/// Whether a filter that lets `filter` and everything more severe pass
/// lets a record of `level` pass.
pub fn accepts(filter: LogLevel, level: LogLevel) -> (pass: bool)
    ensures
        pass == passes(filter, level),
{
    level.rank_of() <= filter.rank_of()
}

/// Decides how the sinks are set up. A debug build records debug output, a
/// release build stops at informational output. The lines go to the
/// session's log file if logging to disk is switched on; if not, they go
/// where they are swallowed or shown, so that every record still runs
/// through the sink. Errors are always copied to the crash log.
pub fn plan_sinks(debug_build: bool, log_to_disk: bool, on_linux: bool) -> (plan: SinkPlan)
    ensures
        plan.level == if debug_build {
            LogLevel::Debug
        } else {
            LogLevel::Info
        },
        plan.target == if log_to_disk {
            SinkTarget::SessionLog
        } else if on_linux {
            SinkTarget::NullDevice
        } else {
            SinkTarget::Stdout
        },
        plan.crash_level == LogLevel::Error,
{
    let level = if debug_build {
        LogLevel::Debug
    } else {
        LogLevel::Info
    };
    let target = if log_to_disk {
        SinkTarget::SessionLog
    } else if on_linux {
        SinkTarget::NullDevice
    } else {
        SinkTarget::Stdout
    };
    SinkPlan { level, target, crash_level: LogLevel::Error }
}

/// Decides where the line of a record of `level` is written. The record
/// runs through the sink if the plan's level lets it pass. What runs through
/// the sink and is severe enough for the crash log is written there too,
/// wherever else it goes.
pub fn destinations(plan: SinkPlan, level: LogLevel) -> (to: Destinations)
    ensures
        to.sink == passes(plan.level, level),
        to.crash_log == (passes(plan.level, level) && passes(plan.crash_level, level)),
{
    let sink = accepts(plan.level, level);
    Destinations { sink, crash_log: sink && accepts(plan.crash_level, level) }
}

/// The format in which events are stamped.
pub fn stamp_pattern() -> (pattern: &'static str)
    ensures
        pattern@ == timestamp_pattern(),
{
    "%H:%M:%S.%f"
}

/// Reads the local time and writes it in the format of the stamps.
///
/// Calls `chrono::Local::now`, `DateTime::format` and
/// `DelayedFormat::write_to`. Trusted: for this format chrono writes the
/// time without an error. Nothing is claimed of the text. chrono itself
/// gives up if the system clock stands before 1970 or the time zone of the
/// machine gives no offset.
#[verifier::external_body]
fn local_time(pattern: &str) -> (text: String)
    requires
        pattern@ == timestamp_pattern(),
{
    let mut text = String::new();
    let _ = chrono::Local::now().format(pattern).write_to(&mut text);
    text
}

/// Whether a message has the shape of a JSON object: it begins with `{` and
/// ends with `}`.
pub fn looks_structured(message: &str) -> (structured: bool)
    ensures
        structured == is_structured(message@),
{
    starts_with(message, "{") && ends_with(message, "}")
}

/// Reads a log record as a payload. A message in the shape of a JSON object
/// is read as an event that is already built; any other message becomes a
/// log entry of the severity that stands for `level`.
///
/// Returns `None` for a message in the shape of an object that is no
/// event. Such a message is a fault of its producer, and the caller must
/// not go on as if it had not been logged.
pub fn classify(message: &str, level: LogLevel) -> (payload: Option<EventType>)
    ensures
        match payload {
            Some(p) => classified(message@, level) == Some(p@),
            None => classified(message@, level) is None,
        },
{
    if looks_structured(message) {
        decode_payload(message)
    } else {
        Some(
            EventType::Log(
                LogEntry {
                    severity: LogSeverity::from_log_level(level),
                    content: String::from_str(message),
                },
            ),
        )
    }
}

/// Stamps a payload and writes the line that records it.
pub fn record(timestamp: String, payload: EventType) -> (made: Record)
    ensures
        made.event.timestamp == timestamp,
        made.event.payload == payload,
        made.line@ == event_text(made.event@),
        single_line(made.line@),
{
    let event = Event::new(timestamp, payload);
    let line = render_event(&event);
    Record { event, line }
}

/// Records a payload at `timestamp`: stamps it, publishes the event on the
/// bus if there is one, and returns the event with the line to write. The
/// line is made whether or not there is a bus, and whatever the bus keeps.
pub fn emit_at(payload: EventType, timestamp: String, bus: &mut Option<Bus<Event>>) -> (made:
    Record)
    requires
        *old(bus) matches Some(b) ==> b.wf(),
    ensures
        (*final(bus) is Some) == (*old(bus) is Some),
        *final(bus) matches Some(b) ==> b.wf(),
        made.event.timestamp == timestamp,
        made.event.payload == payload,
        made.line@ == event_text(made.event@),
        single_line(made.line@),
        *old(bus) matches Some(b) ==> (*final(bus))->0@ == b@.publish(made.event),
{
    let made = record(timestamp, payload);
    match bus {
        Some(b) => {
            b.publish(made.event.clone());
        },
        None => {},
    }
    made
}

/// Records a payload now: reads the clock, then does what [`emit_at`] does
/// with the time it read.
pub fn emit(payload: EventType, bus: &mut Option<Bus<Event>>) -> (made: Record)
    requires
        *old(bus) matches Some(b) ==> b.wf(),
    ensures
        (*final(bus) is Some) == (*old(bus) is Some),
        *final(bus) matches Some(b) ==> b.wf(),
        made.event.payload == payload,
        made.line@ == event_text(made.event@),
        single_line(made.line@),
        *old(bus) matches Some(b) ==> (*final(bus))->0@ == b@.publish(made.event),
{
    let timestamp = local_time(stamp_pattern());
    emit_at(payload, timestamp, bus)
}

} // verus!
