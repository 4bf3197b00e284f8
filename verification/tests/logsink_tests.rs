use valuecell_supervisor::LogSink;
use valuecell_supervisor::ProcessEvent;
use valuecell_supervisor::SinkDirective;
use valuecell_supervisor::sink_lines;
use valuecell_supervisor::sink_step;
use valuecell_supervisor::strip_newlines;

#[test]
fn lines_appear_stripped_and_in_order() {
    let events = vec![
        ProcessEvent::StdoutLine(b"starting up\n".to_vec()),
        ProcessEvent::Other,
        ProcessEvent::StderrLine(b"warning: low disk\n\n".to_vec()),
        ProcessEvent::StdoutLine(b"ready".to_vec()),
        ProcessEvent::Terminated { code: Some(0), signal: None },
        ProcessEvent::StdoutLine(b"never seen".to_vec()),
    ];
    let lines = sink_lines(&events);
    assert_eq!(
        lines,
        vec![
            b"starting up".to_vec(),
            b"warning: low disk".to_vec(),
            b"ready".to_vec(),
        ]
    );
}

#[test]
fn stream_error_stops_the_sink() {
    let events = vec![
        ProcessEvent::StdoutLine(b"one\n".to_vec()),
        ProcessEvent::StreamError,
        ProcessEvent::StdoutLine(b"two\n".to_vec()),
    ];
    let lines = sink_lines(&events);
    assert_eq!(lines, vec![b"one".to_vec()]);
}

#[test]
fn stripping_removes_all_trailing_newlines_only() {
    assert_eq!(strip_newlines(&b"x\n\n\n".to_vec()), b"x".to_vec());
    assert_eq!(strip_newlines(&b"\n".to_vec()), b"".to_vec());
    assert_eq!(strip_newlines(&b"".to_vec()), b"".to_vec());
    assert_eq!(strip_newlines(&b"a\nb\n".to_vec()), b"a\nb".to_vec());
    assert_eq!(strip_newlines(&b"plain".to_vec()), b"plain".to_vec());
}

#[test]
fn sink_step_decides_per_event() {
    match sink_step(&ProcessEvent::StdoutLine(b"hi\n".to_vec())) {
        SinkDirective::Append(l) => assert_eq!(l, b"hi".to_vec()),
        _ => panic!("output line must be appended"),
    }
    assert!(matches!(
        sink_step(&ProcessEvent::Terminated { code: None, signal: Some(9) }),
        SinkDirective::Stop
    ));
    assert!(matches!(sink_step(&ProcessEvent::StreamError), SinkDirective::Stop));
    assert!(matches!(sink_step(&ProcessEvent::Other), SinkDirective::Skip));
}

#[test]
fn write_failure_stops_one_sink_without_touching_another() {
    let mut failing = LogSink::new();
    let mut healthy = LogSink::new();

    let event = ProcessEvent::StdoutLine(b"line\n".to_vec());
    assert!(matches!(failing.observe(&event), SinkDirective::Append(_)));
    // the host's append failed: this sink stops for good
    failing.note_write_result(false);
    assert!(matches!(failing.observe(&event), SinkDirective::Skip));
    assert!(matches!(failing.observe(&ProcessEvent::StreamError), SinkDirective::Skip));

    // the other process's sink is unaffected
    match healthy.observe(&event) {
        SinkDirective::Append(l) => assert_eq!(l, b"line".to_vec()),
        _ => panic!("healthy sink must keep appending"),
    }
    healthy.note_write_result(true);
    assert!(matches!(healthy.observe(&event), SinkDirective::Append(_)));
}

#[test]
fn sink_stops_after_termination_event() {
    let mut sink = LogSink::new();
    let done = ProcessEvent::Terminated { code: Some(1), signal: None };
    assert!(matches!(sink.observe(&done), SinkDirective::Stop));
    let event = ProcessEvent::StdoutLine(b"late\n".to_vec());
    assert!(matches!(sink.observe(&event), SinkDirective::Skip));
}
