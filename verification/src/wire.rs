//! Events as lines of JSON: how an event is written, and how a payload that
//! arrives as text is read.
//!
//! A payload is an object with one member, named after its kind:
//! `{"Log":{"severity":"Info","content":"..."}}`, `{"Session":...}`,
//! `{"AudioDevices":...}`, `{"DriversList":...}`, or any other name with a
//! document of that kind. An event is `{"timestamp":"...","payload":...}`.
//! JSON itself is read and written by `serde_json`; the shape of events is
//! decided here.

use crate::event::{
    Document,
    Event,
    EventType,
    EventTypeView,
    EventView,
    LogEntry,
    LogEntryView,
    LogSeverity,
};
use crate::text::{same_text, single_line};
use vstd::prelude::*;
use vstd::string::*;

verus! {

/// The JSON string literal that `serde_json::to_string` writes for a text.
pub uninterp spec fn json_quoted(text: Seq<char>) -> Seq<char>;

/// The members of the JSON object that `serde_json::from_str` reads from a
/// text, each with its name and with its value written anew as compact
/// JSON by `serde_json::Value`, in the order in which `serde_json::Map`
/// hands them out; `None` where the text is not read as an object.
pub uninterp spec fn json_members(text: Seq<char>) -> Option<Seq<(Seq<char>, Seq<char>)>>;

/// The text that `serde_json::from_str` reads from a JSON document that is
/// one string, or `None` where the document is not read as a string.
pub uninterp spec fn json_string(text: Seq<char>) -> Option<Seq<char>>;

/// The members of an object as mathematical values.
pub open spec fn members_view(members: Seq<(String, String)>) -> Seq<(Seq<char>, Seq<char>)> {
    Seq::new(members.len(), |i: int| (members[i].0@, members[i].1@))
}

/// Writes `text` as a JSON string literal.
///
/// Calls `serde_json::to_string` on a `str`. Trusted: on a `str` the
/// function does not fail; the result is the literal that it returns for
/// this text; and the literal holds no line break, since line feeds and
/// carriage returns are written as escapes.
#[verifier::external_body]
fn quote(text: &str) -> (quoted: String)
    ensures
        quoted@ == json_quoted(text@),
        single_line(quoted@),
{
    serde_json::to_string(text).unwrap_or_default()
}

/// Reads `text` as a JSON object and lists its members.
///
/// Calls `serde_json::from_str` for a `serde_json::Map` and writes each
/// member's value with `Value`'s `to_string`. Trusted: the result is what
/// these return for this text, and `None` stands for the parser's error.
#[verifier::external_body]
fn read_members(text: &str) -> (members: Option<Vec<(String, String)>>)
    ensures
        match members {
            Some(list) => json_members(text@) == Some(members_view(list@)),
            None => json_members(text@) is None,
        },
{
    let object = serde_json::from_str::<serde_json::Map<String, serde_json::Value>>(text).ok()?;
    let mut list = Vec::new();
    for (name, value) in object {
        list.push((name, value.to_string()));
    }
    Some(list)
}

/// Reads `text` as a JSON document that is one string.
///
/// Calls `serde_json::from_str` for a `String`. Trusted: the result is what
/// the function returns for this text, and `None` stands for its error.
#[verifier::external_body]
fn read_string(text: &str) -> (content: Option<String>)
    ensures
        match content {
            Some(s) => json_string(text@) == Some(s@),
            None => json_string(text@) is None,
        },
{
    serde_json::from_str::<String>(text).ok()
}

/// The name of a severity on the wire.
pub open spec fn severity_name(severity: LogSeverity) -> Seq<char> {
    match severity {
        LogSeverity::Error => "Error"@,
        LogSeverity::Warning => "Warning"@,
        LogSeverity::Info => "Info"@,
        LogSeverity::Debug => "Debug"@,
    }
}

/// The JSON object of a log entry whose content is written as `quoted`.
pub open spec fn log_entry_text(severity: LogSeverity, quoted: Seq<char>) -> Seq<char> {
    "{\"severity\":\""@ + severity_name(severity) + "\",\"content\":"@ + quoted + "}"@
}

/// The JSON object with the one member whose name is written as `label` and
/// whose value is written as `body`.
pub open spec fn tagged_text(label: Seq<char>, body: Seq<char>) -> Seq<char> {
    "{"@ + label + ":"@ + body + "}"@
}

/// The name of a payload's kind, as it is written.
pub open spec fn kind_label(payload: EventTypeView) -> Seq<char> {
    match payload {
        EventTypeView::Log(_) => "\"Log\""@,
        EventTypeView::Session(_) => "\"Session\""@,
        EventTypeView::AudioDevices(_) => "\"AudioDevices\""@,
        EventTypeView::DriversList(_) => "\"DriversList\""@,
        EventTypeView::Other { kind, .. } => json_quoted(kind),
    }
}

/// What a payload carries, as it is written.
pub open spec fn body_text(payload: EventTypeView) -> Seq<char> {
    match payload {
        EventTypeView::Log(entry) => log_entry_text(entry.severity, json_quoted(entry.content)),
        EventTypeView::Session(document) => document,
        EventTypeView::AudioDevices(document) => document,
        EventTypeView::DriversList(document) => document,
        EventTypeView::Other { document, .. } => document,
    }
}

/// The JSON object of a payload.
pub open spec fn payload_text(payload: EventTypeView) -> Seq<char> {
    tagged_text(kind_label(payload), body_text(payload))
}

/// The line of an event whose timestamp is written as `stamp` and whose
/// payload is written as `payload`.
pub open spec fn event_line(stamp: Seq<char>, payload: Seq<char>) -> Seq<char> {
    "{\"timestamp\":"@ + stamp + ",\"payload\":"@ + payload + "}"@
}

/// The line of an event.
pub open spec fn event_text(event: EventView) -> Seq<char> {
    event_line(json_quoted(event.timestamp), payload_text(event.payload))
}

/// Two texts without a line break make a text without a line break.
pub proof fn lemma_single_line_concat(a: Seq<char>, b: Seq<char>)
    requires
        single_line(a),
        single_line(b),
    ensures
        single_line(a + b),
{
    assert forall|k: int| 0 <= k < (a + b).len() implies !crate::text::is_line_break(
        #[trigger] (a + b)[k],
    ) by {
        if k < a.len() {
            assert((a + b)[k] == a[k]);
        } else {
            assert((a + b)[k] == b[k - a.len()]);
        }
    }
}

/// The name of a severity on the wire.
pub fn severity_label(severity: LogSeverity) -> (name: &'static str)
    ensures
        name@ == severity_name(severity),
        single_line(name@),
{
    proof {
        reveal_strlit("Error");
        reveal_strlit("Warning");
        reveal_strlit("Info");
        reveal_strlit("Debug");
    }
    match severity {
        LogSeverity::Error => "Error",
        LogSeverity::Warning => "Warning",
        LogSeverity::Info => "Info",
        LogSeverity::Debug => "Debug",
    }
}

/// Writes the JSON object of a log entry whose content is already quoted.
pub fn write_log_entry(severity: LogSeverity, quoted: &str) -> (text: String)
    ensures
        text@ == log_entry_text(severity, quoted@),
        single_line(quoted@) ==> single_line(text@),
{
    let mut text = String::from_str("{\"severity\":\"");
    let name = severity_label(severity);
    text.append(name);
    text.append("\",\"content\":");
    text.append(quoted);
    text.append("}");
    proof {
        reveal_strlit("{\"severity\":\"");
        reveal_strlit("\",\"content\":");
        reveal_strlit("}");
        if single_line(quoted@) {
            let a = "{\"severity\":\""@;
            lemma_single_line_concat(a, name@);
            lemma_single_line_concat(a + name@, "\",\"content\":"@);
            lemma_single_line_concat(a + name@ + "\",\"content\":"@, quoted@);
            lemma_single_line_concat(a + name@ + "\",\"content\":"@ + quoted@, "}"@);
        }
    }
    text
}

/// Writes the JSON object with the one member whose name is written as
/// `label` and whose value is written as `body`.
pub fn write_tagged(label: &str, body: &str) -> (text: String)
    ensures
        text@ == tagged_text(label@, body@),
        single_line(label@) && single_line(body@) ==> single_line(text@),
{
    let mut text = String::from_str("{");
    text.append(label);
    text.append(":");
    text.append(body);
    text.append("}");
    proof {
        reveal_strlit("{");
        reveal_strlit(":");
        reveal_strlit("}");
        if single_line(label@) && single_line(body@) {
            lemma_single_line_concat("{"@, label@);
            lemma_single_line_concat("{"@ + label@, ":"@);
            lemma_single_line_concat("{"@ + label@ + ":"@, body@);
            lemma_single_line_concat("{"@ + label@ + ":"@ + body@, "}"@);
        }
    }
    text
}

/// Writes the line of an event from its quoted timestamp and its payload's text.
pub fn write_event_line(stamp: &str, payload: &str) -> (line: String)
    ensures
        line@ == event_line(stamp@, payload@),
        single_line(stamp@) && single_line(payload@) ==> single_line(line@),
{
    let mut line = String::from_str("{\"timestamp\":");
    line.append(stamp);
    line.append(",\"payload\":");
    line.append(payload);
    line.append("}");
    proof {
        reveal_strlit("{\"timestamp\":");
        reveal_strlit(",\"payload\":");
        reveal_strlit("}");
        if single_line(stamp@) && single_line(payload@) {
            let a = "{\"timestamp\":"@;
            lemma_single_line_concat(a, stamp@);
            lemma_single_line_concat(a + stamp@, ",\"payload\":"@);
            lemma_single_line_concat(a + stamp@ + ",\"payload\":"@, payload@);
            lemma_single_line_concat(a + stamp@ + ",\"payload\":"@ + payload@, "}"@);
        }
    }
    line
}

/// Writes a payload as a JSON object on one line.
pub fn render_payload(payload: &EventType) -> (text: String)
    ensures
        text@ == payload_text(payload@),
        single_line(text@),
{
    proof {
        reveal_strlit("\"Log\"");
        reveal_strlit("\"Session\"");
        reveal_strlit("\"AudioDevices\"");
        reveal_strlit("\"DriversList\"");
    }
    match payload {
        EventType::Log(entry) => {
            let quoted = quote(entry.content.as_str());
            let body = write_log_entry(entry.severity, quoted.as_str());
            write_tagged("\"Log\"", body.as_str())
        },
        EventType::Session(document) => write_tagged("\"Session\"", document.as_str()),
        EventType::AudioDevices(document) => write_tagged("\"AudioDevices\"", document.as_str()),
        EventType::DriversList(document) => write_tagged("\"DriversList\"", document.as_str()),
        EventType::Other { kind, document } => {
            let label = quote(kind.as_str());
            write_tagged(label.as_str(), document.as_str())
        },
    }
}

/// Writes an event as one line of JSON.
pub fn render_event(event: &Event) -> (line: String)
    ensures
        line@ == event_text(event@),
        single_line(line@),
{
    let stamp = quote(event.timestamp.as_str());
    let payload = render_payload(&event.payload);
    write_event_line(stamp.as_str(), payload.as_str())
}

/// The severity that the JSON text of a member names.
pub open spec fn severity_of_text(text: Seq<char>) -> Option<LogSeverity> {
    if text == "\"Error\""@ {
        Some(LogSeverity::Error)
    } else if text == "\"Warning\""@ {
        Some(LogSeverity::Warning)
    } else if text == "\"Info\""@ {
        Some(LogSeverity::Info)
    } else if text == "\"Debug\""@ {
        Some(LogSeverity::Debug)
    } else {
        None
    }
}

/// The value of the first member from position `from` on that is called `name`.
pub open spec fn member_from(
    members: Seq<(Seq<char>, Seq<char>)>,
    name: Seq<char>,
    from: int,
) -> Option<Seq<char>>
    decreases members.len() - from,
{
    if from < 0 || from >= members.len() {
        None
    } else if members[from].0 == name {
        Some(members[from].1)
    } else {
        member_from(members, name, from + 1)
    }
}

/// The log entry that an object with the given members stands for: its
/// member `severity` names a severity and its member `content` is a string.
/// Other members are passed over.
pub open spec fn log_entry_of_members(members: Seq<(Seq<char>, Seq<char>)>) -> Option<
    LogEntryView,
> {
    match (member_from(members, "severity"@, 0), member_from(members, "content"@, 0)) {
        (Some(severity), Some(content)) => match (
            severity_of_text(severity),
            json_string(content),
        ) {
            (Some(severity), Some(content)) => Some(LogEntryView { severity, content }),
            _ => None,
        },
        _ => None,
    }
}

/// The log entry that a JSON text stands for.
pub open spec fn log_entry_of(text: Seq<char>) -> Option<LogEntryView> {
    match json_members(text) {
        Some(members) => log_entry_of_members(members),
        None => None,
    }
}

/// The payload of a kind other than `Log` with the given body, or `None`
/// where the body holds a line break. A kind that has no variant of its own
/// is carried under its name.
pub open spec fn named_payload_of(kind: Seq<char>, body: Seq<char>) -> Option<EventTypeView> {
    if !single_line(body) {
        None
    } else if kind == "Session"@ {
        Some(EventTypeView::Session(body))
    } else if kind == "AudioDevices"@ {
        Some(EventTypeView::AudioDevices(body))
    } else if kind == "DriversList"@ {
        Some(EventTypeView::DriversList(body))
    } else {
        Some(EventTypeView::Other { kind, document: body })
    }
}

/// The payload that a JSON text stands for: an object with exactly one
/// member, whose name is the kind and whose value fits that kind.
pub open spec fn payload_of(text: Seq<char>) -> Option<EventTypeView> {
    match json_members(text) {
        Some(members) => if members.len() != 1 {
            None
        } else if members[0].0 == "Log"@ {
            match log_entry_of(members[0].1) {
                Some(entry) => Some(EventTypeView::Log(entry)),
                None => None,
            }
        } else {
            named_payload_of(members[0].0, members[0].1)
        },
        None => None,
    }
}

/// The event that an object with the given members stands for: its member
/// `timestamp` is a string and its member `payload` is a payload.
pub open spec fn event_of_members(members: Seq<(Seq<char>, Seq<char>)>) -> Option<EventView> {
    match (member_from(members, "timestamp"@, 0), member_from(members, "payload"@, 0)) {
        (Some(stamp), Some(payload)) => match (json_string(stamp), payload_of(payload)) {
            (Some(timestamp), Some(payload)) => Some(EventView { timestamp, payload }),
            _ => None,
        },
        _ => None,
    }
}

/// The event that a line stands for.
pub open spec fn event_of_line(line: Seq<char>) -> Option<EventView> {
    match json_members(line) {
        Some(members) => event_of_members(members),
        None => None,
    }
}

/// Reads the severity that the JSON text of a member names.
pub fn severity_from_text(text: &str) -> (severity: Option<LogSeverity>)
    ensures
        severity == severity_of_text(text@),
{
    if same_text(text, "\"Error\"") {
        Some(LogSeverity::Error)
    } else if same_text(text, "\"Warning\"") {
        Some(LogSeverity::Warning)
    } else if same_text(text, "\"Info\"") {
        Some(LogSeverity::Info)
    } else if same_text(text, "\"Debug\"") {
        Some(LogSeverity::Debug)
    } else {
        None
    }
}

/// Looks up the value of the first member called `name`.
pub fn member(members: &Vec<(String, String)>, name: &str) -> (value: Option<String>)
    ensures
        match value {
            Some(v) => member_from(members_view(members@), name@, 0) == Some(v@),
            None => member_from(members_view(members@), name@, 0) is None,
        },
{
    let mut i: usize = 0;
    while i < members.len()
        invariant
            i <= members@.len(),
            member_from(members_view(members@), name@, 0) == member_from(
                members_view(members@),
                name@,
                i as int,
            ),
        decreases members@.len() - i,
    {
        if same_text(members[i].0.as_str(), name) {
            return Some(members[i].1.clone());
        }
        i = i + 1;
    }
    None
}

/// Builds the payload of a kind other than `Log` from the name of the kind
/// and the body.
pub fn named_payload(kind: String, body: String) -> (payload: Option<EventType>)
    ensures
        match payload {
            Some(p) => named_payload_of(kind@, body@) == Some(p@),
            None => named_payload_of(kind@, body@) is None,
        },
{
    match Document::new(body) {
        None => None,
        Some(document) => {
            if same_text(kind.as_str(), "Session") {
                Some(EventType::Session(document))
            } else if same_text(kind.as_str(), "AudioDevices") {
                Some(EventType::AudioDevices(document))
            } else if same_text(kind.as_str(), "DriversList") {
                Some(EventType::DriversList(document))
            } else {
                Some(EventType::Other { kind, document })
            }
        },
    }
}

/// Builds a log entry from the members of its object.
pub fn log_entry_from_members(members: &Vec<(String, String)>) -> (entry: Option<LogEntry>)
    ensures
        match entry {
            Some(e) => log_entry_of_members(members_view(members@)) == Some(e@),
            None => log_entry_of_members(members_view(members@)) is None,
        },
{
    match (member(members, "severity"), member(members, "content")) {
        (Some(severity), Some(content)) => {
            match (severity_from_text(severity.as_str()), read_string(content.as_str())) {
                (Some(severity), Some(content)) => Some(LogEntry { severity, content }),
                _ => None,
            }
        },
        _ => None,
    }
}

/// Reads a log entry from its JSON object.
pub fn decode_log_entry(text: &str) -> (entry: Option<LogEntry>)
    ensures
        match entry {
            Some(e) => log_entry_of(text@) == Some(e@),
            None => log_entry_of(text@) is None,
        },
{
    match read_members(text) {
        Some(members) => log_entry_from_members(&members),
        None => None,
    }
}

/// Reads a payload from its JSON object.
pub fn decode_payload(text: &str) -> (payload: Option<EventType>)
    ensures
        match payload {
            Some(p) => payload_of(text@) == Some(p@),
            None => payload_of(text@) is None,
        },
{
    match read_members(text) {
        Some(mut members) => {
            if members.len() != 1 {
                return None;
            }
            let ghost only = members_view(members@)[0];
            let (kind, body) = members.remove(0);
            assert(kind@ == only.0 && body@ == only.1);
            if same_text(kind.as_str(), "Log") {
                match decode_log_entry(body.as_str()) {
                    Some(entry) => Some(EventType::Log(entry)),
                    None => None,
                }
            } else {
                named_payload(kind, body)
            }
        },
        None => None,
    }
}

/// Builds an event from the members of its object.
pub fn event_from_members(members: &Vec<(String, String)>) -> (event: Option<Event>)
    ensures
        match event {
            Some(e) => event_of_members(members_view(members@)) == Some(e@),
            None => event_of_members(members_view(members@)) is None,
        },
{
    match (member(members, "timestamp"), member(members, "payload")) {
        (Some(stamp), Some(payload)) => {
            match (read_string(stamp.as_str()), decode_payload(payload.as_str())) {
                (Some(timestamp), Some(payload)) => Some(Event { timestamp, payload }),
                _ => None,
            }
        },
        _ => None,
    }
}

/// Reads an event back from the line that records it.
pub fn decode_event(line: &str) -> (event: Option<Event>)
    ensures
        match event {
            Some(e) => event_of_line(line@) == Some(e@),
            None => event_of_line(line@) is None,
        },
{
    match read_members(line) {
        Some(members) => event_from_members(&members),
        None => None,
    }
}

} // verus!
