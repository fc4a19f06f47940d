use stream_gateway::bus::{Bus, Pulled};
use stream_gateway::event::{Document, Event, EventType, LogEntry, LogLevel, LogSeverity};
use stream_gateway::logging::{
    accepts, classify, destinations, emit, emit_at, looks_structured, plan_sinks, record,
    stamp_pattern, Destinations, SinkTarget,
};
use stream_gateway::text::is_single_line;
use stream_gateway::wire::{
    decode_event, decode_log_entry, decode_payload, event_from_members, log_entry_from_members,
    member, named_payload, render_event, render_payload, severity_from_text, severity_label,
    write_event_line, write_log_entry, write_tagged,
};

fn doc(text: &str) -> Document {
    Document::new(String::from(text)).unwrap()
}

fn log_payload(severity: LogSeverity, content: &str) -> EventType {
    EventType::Log(LogEntry { severity, content: String::from(content) })
}

#[test]
fn plain_message_becomes_one_log_event_and_one_line() {
    let mut bus = Some(Bus::new(256));
    let sub = bus.as_mut().unwrap().subscribe();
    let payload = classify("hello", LogLevel::Info).unwrap();
    assert_eq!(payload, log_payload(LogSeverity::Info, "hello"));
    let made = emit_at(payload, String::from("12:34:56.000000789"), &mut bus);
    assert_eq!(
        made.event,
        Event {
            timestamp: String::from("12:34:56.000000789"),
            payload: log_payload(LogSeverity::Info, "hello"),
        }
    );
    assert_eq!(
        made.line,
        "{\"timestamp\":\"12:34:56.000000789\",\"payload\":{\"Log\":{\"severity\":\"Info\",\"content\":\"hello\"}}}"
    );
    let bus = bus.as_mut().unwrap();
    assert_eq!(bus.unread(&sub), 1);
    assert_eq!(bus.next(&sub), Pulled::Item(made.event));
    assert_eq!(bus.next(&sub), Pulled::Empty);
}

#[test]
fn structured_message_becomes_the_event_it_spells() {
    let mut bus = Some(Bus::new(256));
    let sub = bus.as_mut().unwrap().subscribe();
    let payload =
        classify("{\"Session\":{\"version\":\"20.0\",\"clients\":[]}}", LogLevel::Info).unwrap();
    assert_eq!(payload, EventType::Session(doc("{\"clients\":[],\"version\":\"20.0\"}")));
    assert!(!matches!(payload, EventType::Log(_)));
    let made = emit_at(payload, String::from("00:00:01.5"), &mut bus);
    assert_eq!(
        made.line,
        "{\"timestamp\":\"00:00:01.5\",\"payload\":{\"Session\":{\"clients\":[],\"version\":\"20.0\"}}}"
    );
    assert_eq!(bus.as_mut().unwrap().next(&sub), Pulled::Item(made.event));
}

#[test]
fn message_in_the_shape_of_an_object_that_is_no_event_has_no_payload() {
    for message in [
        "{oops}",
        "{}",
        "{\"Log\":1}",
        "{\"Log\":{\"severity\":\"Info\"}}",
        "{\"Session\":1,\"Log\":2}",
        "{\"Session\":{}",
        "{ not json at all }",
    ] {
        for level in [LogLevel::Error, LogLevel::Info, LogLevel::Trace] {
            assert_eq!(classify(message, level), None, "{}", message);
        }
    }
}

#[test]
fn event_of_a_kind_without_a_variant_passes_through() {
    let payload = classify("{\"Haptics\":{\"duration\":5, \"path\":\"/left\"}}", LogLevel::Info);
    assert_eq!(
        payload,
        Some(EventType::Other {
            kind: String::from("Haptics"),
            document: doc("{\"duration\":5,\"path\":\"/left\"}"),
        })
    );
    let mut bus: Option<Bus<Event>> = None;
    let made = emit_at(payload.unwrap(), String::from("t"), &mut bus);
    assert_eq!(
        made.line,
        "{\"timestamp\":\"t\",\"payload\":{\"Haptics\":{\"duration\":5,\"path\":\"/left\"}}}"
    );
    assert_eq!(
        render_payload(&EventType::Other { kind: String::from("a\"b"), document: doc("null") }),
        "{\"a\\\"b\":null}"
    );
}

#[test]
fn line_is_made_without_a_bus() {
    let mut bus: Option<Bus<Event>> = None;
    let made = emit_at(log_payload(LogSeverity::Warning, "no bus"), String::from("t"), &mut bus);
    assert_eq!(
        made.line,
        "{\"timestamp\":\"t\",\"payload\":{\"Log\":{\"severity\":\"Warning\",\"content\":\"no bus\"}}}"
    );
    assert!(bus.is_none());
}

#[test]
fn full_bus_does_not_keep_the_line_from_being_made() {
    let mut bus = Some(Bus::new(1));
    let sub = bus.as_mut().unwrap().subscribe();
    let first = emit_at(log_payload(LogSeverity::Info, "one"), String::from("t1"), &mut bus);
    let second = emit_at(log_payload(LogSeverity::Info, "two"), String::from("t2"), &mut bus);
    assert!(first.line.contains("\"one\""));
    assert!(second.line.contains("\"two\""));
    assert_eq!(bus.as_mut().unwrap().next(&sub), Pulled::Item(second.event));
    assert_eq!(bus.as_mut().unwrap().next(&sub), Pulled::Empty);
}

#[test]
fn closed_bus_does_not_keep_the_line_from_being_made() {
    let mut bus = Some(Bus::new(4));
    let sub = bus.as_mut().unwrap().subscribe();
    bus.as_mut().unwrap().close();
    let made = emit_at(log_payload(LogSeverity::Info, "late"), String::from("t"), &mut bus);
    assert!(made.line.contains("\"late\""));
    assert_eq!(bus.as_mut().unwrap().next(&sub), Pulled::Closed);
}

#[test]
fn emit_reads_the_clock() {
    assert_eq!(stamp_pattern(), "%H:%M:%S.%f");
    let mut bus = Some(Bus::new(8));
    let sub = bus.as_mut().unwrap().subscribe();
    let made = emit(log_payload(LogSeverity::Debug, "tick"), &mut bus);
    let stamp = made.event.timestamp.clone();
    let parts: Vec<&str> = stamp.split(':').collect();
    assert_eq!(parts.len(), 3);
    assert_eq!(parts[0].len(), 2);
    assert!(parts[0].chars().all(|c| c.is_ascii_digit()));
    assert_eq!(parts[1].len(), 2);
    assert!(parts[1].chars().all(|c| c.is_ascii_digit()));
    let seconds: Vec<&str> = parts[2].split('.').collect();
    assert_eq!(seconds.len(), 2);
    assert_eq!(seconds[0].len(), 2);
    assert!(seconds[0].chars().all(|c| c.is_ascii_digit()));
    assert!(!seconds[1].is_empty());
    assert!(seconds[1].chars().all(|c| c.is_ascii_digit()));
    assert_eq!(made.event.payload, log_payload(LogSeverity::Debug, "tick"));
    assert_eq!(render_event(&made.event), made.line);
    assert_eq!(bus.as_mut().unwrap().next(&sub), Pulled::Item(made.event));
}

#[test]
fn severity_follows_the_level() {
    let cases = [
        (LogLevel::Error, LogSeverity::Error),
        (LogLevel::Warn, LogSeverity::Warning),
        (LogLevel::Info, LogSeverity::Info),
        (LogLevel::Debug, LogSeverity::Debug),
        (LogLevel::Trace, LogSeverity::Debug),
    ];
    for (level, severity) in cases {
        assert_eq!(LogSeverity::from_log_level(level), severity);
        assert_eq!(classify("m", level), Some(log_payload(severity, "m")));
    }
    assert_eq!(LogSeverity::Error.into_log_level(), LogLevel::Error);
    assert_eq!(LogSeverity::Warning.into_log_level(), LogLevel::Warn);
    assert_eq!(LogSeverity::Info.into_log_level(), LogLevel::Info);
    assert_eq!(LogSeverity::Debug.into_log_level(), LogLevel::Debug);
}

#[test]
fn shape_of_a_message_decides_how_it_is_read() {
    assert!(looks_structured("{}"));
    assert!(looks_structured("{\"Session\":{}}"));
    assert!(looks_structured("{ not json at all }"));
    assert!(!looks_structured("{"));
    assert!(!looks_structured("}"));
    assert!(!looks_structured(""));
    assert!(!looks_structured(" {}"));
    assert!(!looks_structured("{} "));
    assert!(!looks_structured("[{}]"));
    assert!(!looks_structured("hello {}"));
    assert_eq!(classify("{", LogLevel::Info), Some(log_payload(LogSeverity::Info, "{")));
    assert_eq!(classify(" {}", LogLevel::Info), Some(log_payload(LogSeverity::Info, " {}")));
    assert_eq!(classify("{}", LogLevel::Info), None);
    assert_eq!(classify("", LogLevel::Info), Some(log_payload(LogSeverity::Info, "")));
}

#[test]
fn content_is_quoted_as_json() {
    let entry = log_payload(LogSeverity::Error, "say \"hi\"\n\\ \u{1}é");
    assert_eq!(
        render_payload(&entry),
        "{\"Log\":{\"severity\":\"Error\",\"content\":\"say \\\"hi\\\"\\n\\\\ \\u0001é\"}}"
    );
    let event = Event { timestamp: String::from("a\"b"), payload: entry };
    assert_eq!(
        render_event(&event),
        "{\"timestamp\":\"a\\\"b\",\"payload\":{\"Log\":{\"severity\":\"Error\",\"content\":\"say \\\"hi\\\"\\n\\\\ \\u0001é\"}}}"
    );
}

#[test]
fn every_line_is_one_line() {
    let events = vec![
        Event {
            timestamp: String::from("line\nbreak\r"),
            payload: log_payload(LogSeverity::Info, "a\nb\r\nc"),
        },
        Event {
            timestamp: String::from("t"),
            payload: EventType::Other { kind: String::from("k\nk"), document: doc("[1,2]") },
        },
        Event { timestamp: String::from("t"), payload: EventType::Session(doc("{\"a\":\"\\n\"}")) },
    ];
    for event in events {
        let line = render_event(&event);
        assert!(!line.contains('\n'));
        assert!(!line.contains('\r'));
        assert!(is_single_line(&line));
        assert_eq!(decode_event(&line), Some(event));
    }
}

#[test]
fn documents_hold_no_line_break() {
    assert!(Document::new(String::from("{\"a\":1}")).is_some());
    assert!(Document::new(String::new()).is_some());
    assert!(Document::new(String::from("{\n\"a\":1}")).is_none());
    assert!(Document::new(String::from("[1,\r2]")).is_none());
    assert_eq!(doc("[1]").as_str(), "[1]");
    assert_eq!(doc("[1]").clone(), doc("[1]"));
    assert!(is_single_line("a b\tc"));
    assert!(is_single_line(""));
    assert!(!is_single_line("a\n"));
    assert!(!is_single_line("\ra"));
    assert!(is_single_line("é\u{2028}"));
}

#[test]
fn documents_are_written_as_they_are() {
    assert_eq!(render_payload(&EventType::Session(doc("{\"a\":1}"))), "{\"Session\":{\"a\":1}}");
    assert_eq!(
        render_payload(&EventType::AudioDevices(doc("{\"output\":[\"x\"],\"input\":[]}"))),
        "{\"AudioDevices\":{\"output\":[\"x\"],\"input\":[]}}"
    );
    assert_eq!(
        render_payload(&EventType::DriversList(doc("[\"/a\",\"/b\"]"))),
        "{\"DriversList\":[\"/a\",\"/b\"]}"
    );
}

#[test]
fn pieces_of_a_line() {
    assert_eq!(severity_label(LogSeverity::Error), "Error");
    assert_eq!(severity_label(LogSeverity::Warning), "Warning");
    assert_eq!(severity_label(LogSeverity::Info), "Info");
    assert_eq!(severity_label(LogSeverity::Debug), "Debug");
    assert_eq!(
        write_log_entry(LogSeverity::Debug, "\"x\""),
        "{\"severity\":\"Debug\",\"content\":\"x\"}"
    );
    assert_eq!(write_tagged("\"Kind\"", "[1]"), "{\"Kind\":[1]}");
    assert_eq!(write_event_line("\"t\"", "{}"), "{\"timestamp\":\"t\",\"payload\":{}}");
}

#[test]
fn payloads_are_read_back() {
    assert_eq!(
        decode_payload("{\"Log\":{\"severity\":\"Warning\",\"content\":\"a\\tb \\\"q\\\"\"}}"),
        Some(log_payload(LogSeverity::Warning, "a\tb \"q\""))
    );
    assert_eq!(
        decode_payload(" { \"Session\" : { \"b\" : 1 , \"a\" : [ 1 , 2 ] } } "),
        Some(EventType::Session(doc("{\"a\":[1,2],\"b\":1}")))
    );
    assert_eq!(
        decode_payload("{\"Session\":\n{\"b\":\n1}}"),
        Some(EventType::Session(doc("{\"b\":1}")))
    );
    assert_eq!(
        decode_payload("{\"AudioDevices\":{\"output\":[],\"input\":[\"mic\"]}}"),
        Some(EventType::AudioDevices(doc("{\"input\":[\"mic\"],\"output\":[]}")))
    );
    assert_eq!(
        decode_payload("{\"DriversList\":[\"/a\", \"/b\"]}"),
        Some(EventType::DriversList(doc("[\"/a\",\"/b\"]")))
    );
    assert_eq!(
        decode_payload("{\"session\":{}}"),
        Some(EventType::Other { kind: String::from("session"), document: doc("{}") })
    );
}

#[test]
fn what_is_written_is_read_back() {
    let payloads = vec![
        log_payload(LogSeverity::Info, "plain"),
        log_payload(LogSeverity::Error, "with \"quotes\" and \\ and \n"),
        EventType::Session(doc("{\"k\":[true,null,1.5]}")),
        EventType::AudioDevices(doc("{}")),
        EventType::DriversList(doc("[]")),
        EventType::Other { kind: String::from("Tracking \"x\""), document: doc("7") },
    ];
    for payload in payloads {
        let text = render_payload(&payload);
        assert_eq!(decode_payload(&text), Some(payload.clone()));
        let event = Event { timestamp: String::from("23:59:60.1"), payload };
        assert_eq!(decode_event(&render_event(&event)), Some(event));
    }
}

#[test]
fn lines_that_are_no_events_are_refused() {
    for line in [
        "",
        "[]",
        "{}",
        "{\"timestamp\":\"t\"}",
        "{\"payload\":{\"Session\":{}}}",
        "{\"timestamp\":5,\"payload\":{\"Session\":{}}}",
        "{\"timestamp\":\"t\",\"payload\":{}}",
        "{\"timestamp\":\"t\",\"payload\":\"Session\"}",
    ] {
        assert_eq!(decode_event(line), None, "{}", line);
    }
    let members = vec![
        (String::from("payload"), String::from("{\"DriversList\":[]}")),
        (String::from("timestamp"), String::from("\"now\"")),
    ];
    assert_eq!(
        event_from_members(&members),
        Some(Event { timestamp: String::from("now"), payload: EventType::DriversList(doc("[]")) })
    );
    assert_eq!(event_from_members(&Vec::new()), None);
}

#[test]
fn payloads_that_are_not_events_are_refused() {
    for text in [
        "",
        "null",
        "[]",
        "\"Session\"",
        "{}",
        "{\"Session\":{},\"DriversList\":[]}",
        "{\"Log\":\"text\"}",
        "{\"Log\":{\"severity\":\"Info\"}}",
        "{\"Log\":{\"content\":\"x\"}}",
        "{\"Log\":{\"severity\":\"Fatal\",\"content\":\"x\"}}",
        "{\"Log\":{\"severity\":\"Info\",\"content\":5}}",
        "{\"Session\":{}} trailing",
        "{\"Session\":",
    ] {
        assert_eq!(decode_payload(text), None, "{}", text);
    }
}

#[test]
fn log_entries_are_read_from_their_members() {
    assert_eq!(
        decode_log_entry("{\"content\":\"c\",\"severity\":\"Debug\",\"extra\":1}"),
        Some(LogEntry { severity: LogSeverity::Debug, content: String::from("c") })
    );
    assert_eq!(decode_log_entry("[1]"), None);
    let members = vec![
        (String::from("content"), String::from("\"a\\nb\"")),
        (String::from("severity"), String::from("\"Error\"")),
    ];
    assert_eq!(
        log_entry_from_members(&members),
        Some(LogEntry { severity: LogSeverity::Error, content: String::from("a\nb") })
    );
    let unquoted = vec![
        (String::from("content"), String::from("a")),
        (String::from("severity"), String::from("\"Error\"")),
    ];
    assert_eq!(log_entry_from_members(&unquoted), None);
    assert_eq!(log_entry_from_members(&Vec::new()), None);
}

#[test]
fn members_are_found_by_name() {
    let members = vec![
        (String::from("a"), String::from("1")),
        (String::from("b"), String::from("2")),
        (String::from("a"), String::from("3")),
    ];
    assert_eq!(member(&members, "a"), Some(String::from("1")));
    assert_eq!(member(&members, "b"), Some(String::from("2")));
    assert_eq!(member(&members, "c"), None);
    assert_eq!(member(&Vec::new(), "a"), None);
}

#[test]
fn severities_are_read_from_their_names() {
    assert_eq!(severity_from_text("\"Error\""), Some(LogSeverity::Error));
    assert_eq!(severity_from_text("\"Warning\""), Some(LogSeverity::Warning));
    assert_eq!(severity_from_text("\"Info\""), Some(LogSeverity::Info));
    assert_eq!(severity_from_text("\"Debug\""), Some(LogSeverity::Debug));
    assert_eq!(severity_from_text("Info"), None);
    assert_eq!(severity_from_text("\"info\""), None);
    assert_eq!(severity_from_text("\"Trace\""), None);
}

#[test]
fn kinds_are_read_from_their_names() {
    assert_eq!(
        named_payload(String::from("Session"), String::from("{}")),
        Some(EventType::Session(doc("{}")))
    );
    assert_eq!(
        named_payload(String::from("AudioDevices"), String::from("{}")),
        Some(EventType::AudioDevices(doc("{}")))
    );
    assert_eq!(
        named_payload(String::from("DriversList"), String::from("[]")),
        Some(EventType::DriversList(doc("[]")))
    );
    assert_eq!(
        named_payload(String::from("Buttons"), String::from("[]")),
        Some(EventType::Other { kind: String::from("Buttons"), document: doc("[]") })
    );
    assert_eq!(
        named_payload(String::new(), String::from("{}")),
        Some(EventType::Other { kind: String::new(), document: doc("{}") })
    );
    assert_eq!(named_payload(String::from("Session"), String::from("{\n}")), None);
    assert_eq!(named_payload(String::from("Buttons"), String::from("[\r]")), None);
}

#[test]
fn record_stamps_and_writes() {
    let made = record(String::from("01:02:03.4"), log_payload(LogSeverity::Info, "x"));
    assert_eq!(made.event.timestamp, "01:02:03.4");
    assert_eq!(made.event.payload, log_payload(LogSeverity::Info, "x"));
    assert_eq!(
        made.line,
        "{\"timestamp\":\"01:02:03.4\",\"payload\":{\"Log\":{\"severity\":\"Info\",\"content\":\"x\"}}}"
    );
    assert!(!made.line.contains('\n'));
}

#[test]
fn sinks_are_planned() {
    let plan = plan_sinks(true, true, true);
    assert_eq!(plan.level, LogLevel::Debug);
    assert_eq!(plan.target, SinkTarget::SessionLog);
    assert_eq!(plan.crash_level, LogLevel::Error);
    let plan = plan_sinks(false, false, true);
    assert_eq!(plan.level, LogLevel::Info);
    assert_eq!(plan.target, SinkTarget::NullDevice);
    assert_eq!(plan.crash_level, LogLevel::Error);
    let plan = plan_sinks(false, false, false);
    assert_eq!(plan.target, SinkTarget::Stdout);
    let plan = plan_sinks(false, true, false);
    assert_eq!(plan.target, SinkTarget::SessionLog);
}

#[test]
fn filters_let_the_more_severe_pass() {
    assert!(accepts(LogLevel::Info, LogLevel::Error));
    assert!(accepts(LogLevel::Info, LogLevel::Warn));
    assert!(accepts(LogLevel::Info, LogLevel::Info));
    assert!(!accepts(LogLevel::Info, LogLevel::Debug));
    assert!(!accepts(LogLevel::Info, LogLevel::Trace));
    assert!(accepts(LogLevel::Error, LogLevel::Error));
    assert!(!accepts(LogLevel::Error, LogLevel::Warn));
    assert!(accepts(LogLevel::Debug, LogLevel::Debug));
    assert!(!accepts(LogLevel::Debug, LogLevel::Trace));
    assert!(accepts(LogLevel::Trace, LogLevel::Trace));
    assert_eq!(LogLevel::Error.rank_of(), 1);
    assert_eq!(LogLevel::Trace.rank_of(), 5);
}

#[test]
fn errors_are_copied_to_the_crash_log() {
    for (debug_build, log_to_disk, on_linux) in
        [(false, false, false), (false, true, true), (true, false, true), (true, true, false)]
    {
        let plan = plan_sinks(debug_build, log_to_disk, on_linux);
        assert_eq!(
            destinations(plan, LogLevel::Error),
            Destinations { sink: true, crash_log: true }
        );
        assert_eq!(
            destinations(plan, LogLevel::Warn),
            Destinations { sink: true, crash_log: false }
        );
        assert_eq!(
            destinations(plan, LogLevel::Info),
            Destinations { sink: true, crash_log: false }
        );
        assert_eq!(
            destinations(plan, LogLevel::Debug),
            Destinations { sink: debug_build, crash_log: false }
        );
        assert_eq!(
            destinations(plan, LogLevel::Trace),
            Destinations { sink: false, crash_log: false }
        );
    }
}
