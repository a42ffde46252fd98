use sidecar_supervisor::multiplexer::{classify, OutputEvent, Severity};
use sidecar_supervisor::session::{Session, SessionState};
use sidecar_supervisor::supervisor::SpawnError;

fn running_session() -> Session {
    let mut session = Session::new();
    session.begin_spawn();
    session.record_spawn("/work");
    session
}

#[test]
fn stdout_line_is_tagged_info() {
    let line = classify(&OutputEvent::Stdout(b"hello".to_vec())).unwrap();
    assert_eq!(line.severity, Severity::Info);
    assert_eq!(line.text, "hello");
    assert_eq!(line.rendered(), "[INFO] hello");
}

#[test]
fn stderr_line_is_tagged_err() {
    let line = classify(&OutputEvent::Stderr(b"boom".to_vec())).unwrap();
    assert_eq!(line.severity, Severity::Error);
    assert_eq!(line.text, "boom");
    assert_eq!(line.rendered(), "[ERR] boom");
}

#[test]
fn exit_and_bookkeeping_events_carry_no_line() {
    assert!(classify(&OutputEvent::Exited(Some(0))).is_none());
    assert!(classify(&OutputEvent::Exited(None)).is_none());
    assert!(classify(&OutputEvent::Other).is_none());
}

#[test]
fn invalid_bytes_decode_to_replacement_characters() {
    // Lossy decoding is total: invalid sequences become U+FFFD, never an error.
    let line = classify(&OutputEvent::Stdout(vec![0xff, 0xfe])).unwrap();
    assert_eq!(line.text, "\u{FFFD}\u{FFFD}");
    assert_eq!(line.rendered(), "[INFO] \u{FFFD}\u{FFFD}");
}

#[test]
fn multibyte_output_decodes_as_text_not_bytes() {
    // Three bytes of UTF-8 decode to the single character they encode.
    let line = classify(&OutputEvent::Stdout(vec![0xe4, 0xb8, 0x96])).unwrap();
    assert_eq!(line.text, "\u{4e16}");
}

#[test]
fn empty_output_decodes_to_empty_text() {
    let line = classify(&OutputEvent::Stderr(Vec::new())).unwrap();
    assert_eq!(line.text, "");
    assert_eq!(line.rendered(), "[ERR] ");
}

#[test]
fn hello_then_exit_publishes_once_and_closes() {
    // Child emits "hello\n" on stdout, then exits with code 0. The line
    // arrives framed (terminator stripped); the emitter receives exactly
    // "[INFO] hello", the exit event publishes nothing, and channel
    // closure writes one closing diagnostic.
    let mut session = running_session();
    let delivered = session.handle_event(&OutputEvent::Stdout(b"hello".to_vec()));
    assert_eq!(delivered.as_deref(), Some("[INFO] hello"));
    let silent = session.handle_event(&OutputEvent::Exited(Some(0)));
    assert!(silent.is_none());
    session.finish();

    assert_eq!(session.state, SessionState::Terminated);
    assert_eq!(session.emitter.events.len(), 1);
    assert_eq!(session.emitter.events[0].0, "backend-log");
    assert_eq!(session.emitter.events[0].1, "[INFO] hello");
    assert_eq!(
        session.sink.records,
        vec![
            "Sidecar spawned successfully; work dir: /work".to_string(),
            "[INFO] hello".to_string(),
            "Sidecar process terminated.".to_string(),
        ],
    );
}

#[test]
fn interleaved_streams_keep_chronological_order() {
    // out1, err1, out2 arrive chronologically interleaved; both sinks
    // receive them in that exact order, not grouped by stream.
    let mut session = running_session();
    let events = vec![
        OutputEvent::Stdout(b"out1".to_vec()),
        OutputEvent::Stderr(b"err1".to_vec()),
        OutputEvent::Stdout(b"out2".to_vec()),
    ];
    session.run_events(&events);

    let expected = vec!["[INFO] out1", "[ERR] err1", "[INFO] out2"];
    let published: Vec<&str> = session.emitter.events.iter().map(|e| e.1.as_str()).collect();
    assert_eq!(published, expected);
    let logged: Vec<&str> = session.sink.records[1..].iter().map(|s| s.as_str()).collect();
    assert_eq!(logged, expected);
}

#[test]
fn every_line_reaches_both_sinks_at_the_same_position() {
    let mut session = running_session();
    let events = vec![
        OutputEvent::Stdout(b"a".to_vec()),
        OutputEvent::Exited(None),
        OutputEvent::Stderr(b"b".to_vec()),
        OutputEvent::Other,
        OutputEvent::Stdout(b"c".to_vec()),
    ];
    session.run_events(&events);
    assert_eq!(session.emitter.events.len(), 3);
    for (i, (topic, payload)) in session.emitter.events.iter().enumerate() {
        assert_eq!(topic, "backend-log");
        assert_eq!(payload, &session.sink.records[i + 1]);
    }
}

#[test]
fn sidecar_not_found_logs_once_and_publishes_nothing() {
    let mut session = Session::new();
    session.begin_spawn();
    assert_eq!(session.state, SessionState::Spawning);
    session.record_failure(&SpawnError::NotFound);

    assert_eq!(session.state, SessionState::SpawnFailed);
    assert!(session.emitter.events.is_empty());
    assert_eq!(
        session.sink.records,
        vec!["Failed to create sidecar command: sidecar not found".to_string()],
    );
}

#[test]
fn launch_failure_logs_the_reason_once() {
    let mut session = Session::new();
    session.begin_spawn();
    session.record_failure(&SpawnError::LaunchFailed("permission denied".to_string()));

    assert_eq!(session.state, SessionState::SpawnFailed);
    assert!(session.emitter.events.is_empty());
    assert_eq!(
        session.sink.records,
        vec!["Failed to spawn sidecar: permission denied".to_string()],
    );
}

#[test]
fn session_starts_idle_with_empty_histories() {
    let session = Session::new();
    assert_eq!(session.state, SessionState::Idle);
    assert!(session.sink.records.is_empty());
    assert!(session.emitter.events.is_empty());
}
