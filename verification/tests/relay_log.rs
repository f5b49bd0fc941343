use sidecar_supervisor::event::{classify, LogChannel, LogEntry, OutputEvent};
use sidecar_supervisor::relay::relay;

fn out(text: &str) -> OutputEvent {
    OutputEvent::StandardOutputLine(text.as_bytes().to_vec())
}

fn err(text: &str) -> OutputEvent {
    OutputEvent::StandardErrorLine(text.as_bytes().to_vec())
}

fn entry(channel: LogChannel, text: &str) -> LogEntry {
    LogEntry { channel, text: text.to_string() }
}

#[test]
fn events_are_logged_in_emission_order() {
    let events = vec![out("a"), out("b"), OutputEvent::Terminated { code: Some(0), signal: None }];
    let log = relay(&events);
    assert_eq!(
        log,
        vec![
            entry(LogChannel::Output, "[backend] a"),
            entry(LogChannel::Output, "[backend] b"),
            entry(
                LogChannel::Output,
                "[backend] Process terminated with code: Some(0), signal: None"
            ),
        ]
    );
}

#[test]
fn standard_output_line_goes_to_output_channel() {
    assert_eq!(classify(&out("ready")), Some(entry(LogChannel::Output, "[backend] ready")));
}

#[test]
fn standard_error_line_goes_to_error_channel() {
    assert_eq!(classify(&err("oops")), Some(entry(LogChannel::Error, "[backend] oops")));
}

#[test]
fn runtime_fault_gets_its_own_tag() {
    let event = OutputEvent::SpawnOrRuntimeError("pipe closed".to_string());
    assert_eq!(classify(&event), Some(entry(LogChannel::Error, "[backend error] pipe closed")));
}

#[test]
fn termination_records_code_and_signal() {
    let event = OutputEvent::Terminated { code: None, signal: Some(9) };
    assert_eq!(
        classify(&event),
        Some(entry(
            LogChannel::Output,
            "[backend] Process terminated with code: None, signal: Some(9)"
        ))
    );
    let event = OutputEvent::Terminated { code: Some(-1), signal: None };
    assert_eq!(
        classify(&event),
        Some(entry(
            LogChannel::Output,
            "[backend] Process terminated with code: Some(-1), signal: None"
        ))
    );
}

#[test]
fn unclassified_event_has_no_entry() {
    assert_eq!(classify(&OutputEvent::Unclassified), None);
}

#[test]
fn malformed_bytes_are_decoded_lossily() {
    let event = OutputEvent::StandardOutputLine(vec![0xff, b'a']);
    assert_eq!(classify(&event), Some(entry(LogChannel::Output, "[backend] \u{FFFD}a")));
}

#[test]
fn multibyte_text_is_decoded() {
    let event = OutputEvent::StandardErrorLine("caf\u{e9} \u{2713}".as_bytes().to_vec());
    assert_eq!(classify(&event), Some(entry(LogChannel::Error, "[backend] caf\u{e9} \u{2713}")));
}

#[test]
fn empty_line_keeps_the_tag() {
    assert_eq!(classify(&out("")), Some(entry(LogChannel::Output, "[backend] ")));
}

#[test]
fn entry_builders_take_decoded_text() {
    assert_eq!(LogEntry::output_line("x"), entry(LogChannel::Output, "[backend] x"));
    assert_eq!(LogEntry::error_line("y"), entry(LogChannel::Error, "[backend] y"));
    assert_eq!(LogEntry::fault("z"), entry(LogChannel::Error, "[backend error] z"));
    assert_eq!(
        LogEntry::termination(Some(1), Some(15)),
        entry(LogChannel::Output, "[backend] Process terminated with code: Some(1), signal: Some(15)")
    );
}

#[test]
fn relay_of_nothing_logs_nothing() {
    let events: Vec<OutputEvent> = Vec::new();
    assert_eq!(relay(&events), Vec::<LogEntry>::new());
}

#[test]
fn relay_mixes_channels_without_reordering() {
    let events = vec![
        out("one"),
        err("two"),
        OutputEvent::Unclassified,
        OutputEvent::SpawnOrRuntimeError("three".to_string()),
        out("four"),
    ];
    assert_eq!(
        relay(&events),
        vec![
            entry(LogChannel::Output, "[backend] one"),
            entry(LogChannel::Error, "[backend] two"),
            entry(LogChannel::Error, "[backend error] three"),
            entry(LogChannel::Output, "[backend] four"),
        ]
    );
}

#[test]
fn runtime_fault_does_not_end_the_relay() {
    let events = vec![OutputEvent::SpawnOrRuntimeError("hiccup".to_string()), out("still here")];
    let log = relay(&events);
    assert_eq!(log.len(), 2);
    assert_eq!(log[1], entry(LogChannel::Output, "[backend] still here"));
}

#[test]
fn nothing_is_logged_after_termination() {
    let events = vec![
        out("a"),
        OutputEvent::Terminated { code: Some(1), signal: None },
        out("late"),
        OutputEvent::Terminated { code: Some(2), signal: None },
    ];
    assert_eq!(
        relay(&events),
        vec![
            entry(LogChannel::Output, "[backend] a"),
            entry(
                LogChannel::Output,
                "[backend] Process terminated with code: Some(1), signal: None"
            ),
        ]
    );
}

#[test]
fn only_termination_ends_the_stream() {
    assert!(OutputEvent::Terminated { code: None, signal: None }.ends_stream());
    assert!(!out("x").ends_stream());
    assert!(!err("x").ends_stream());
    assert!(!OutputEvent::SpawnOrRuntimeError("x".to_string()).ends_stream());
    assert!(!OutputEvent::Unclassified.ends_stream());
}
