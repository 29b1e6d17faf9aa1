use paastel::stream::{build_step, push_step, BuildMessage, Phase, PushMessage, Report, StreamEvent};

fn s(x: &str) -> Option<String> {
    Some(x.to_string())
}

fn describe(r: &Report) -> String {
    match r {
        Report::Log(t) => format!("log:{t}"),
        Report::EmbeddedError(t) => format!("error:{t}"),
        Report::Status(t) => format!("status:{t}"),
        Report::StatusProgress(t, p) => format!("status:{t}|{p}"),
    }
}

fn drain_build(events: Vec<StreamEvent<BuildMessage>>) -> (Phase, Vec<String>) {
    let mut phase = Phase::Streaming;
    let mut out = Vec::new();
    for e in events {
        if !matches!(phase, Phase::Streaming) {
            break;
        }
        let (next, reports) = build_step(&phase, &e);
        out.extend(reports.iter().map(describe));
        phase = next;
    }
    (phase, out)
}

fn drain_push(events: Vec<StreamEvent<PushMessage>>) -> (Phase, Vec<String>) {
    let mut phase = Phase::Streaming;
    let mut out = Vec::new();
    for e in events {
        if !matches!(phase, Phase::Streaming) {
            break;
        }
        let (next, reports) = push_step(&phase, &e);
        out.extend(reports.iter().map(describe));
        phase = next;
    }
    (phase, out)
}

#[test]
fn build_embedded_error_does_not_stop_the_stream() {
    let (phase, out) = drain_build(vec![
        StreamEvent::Message(BuildMessage { stream: s("Step 1/2\n"), error: None }),
        StreamEvent::Message(BuildMessage { stream: None, error: s("tool failed") }),
        StreamEvent::Message(BuildMessage { stream: s("Step 2/2\n"), error: s("warning") }),
        StreamEvent::End,
    ]);
    assert!(matches!(phase, Phase::Drained));
    assert_eq!(out, vec!["log:Step 1/2\n", "error:tool failed", "log:Step 2/2\n", "error:warning"]);
}

#[test]
fn build_transport_failure_aborts_at_once() {
    let (phase, out) = drain_build(vec![
        StreamEvent::Message(BuildMessage { stream: s("a"), error: None }),
        StreamEvent::Failure("connection reset".to_string()),
        StreamEvent::Message(BuildMessage { stream: s("never"), error: None }),
        StreamEvent::End,
    ]);
    match phase {
        Phase::Aborted(t) => assert_eq!(t, "connection reset"),
        _ => panic!("the phase should be aborted"),
    }
    assert_eq!(out, vec!["log:a"]);
}

#[test]
fn finished_phase_stays_finished() {
    let (next, reports) = build_step(&Phase::Drained, &StreamEvent::Failure("late".to_string()));
    assert!(matches!(next, Phase::Drained));
    assert!(reports.is_empty());
    let (next, reports) =
        push_step(&Phase::Aborted("x".to_string()), &StreamEvent::Message(PushMessage { status: s("a"), progress: None, error: None }));
    assert!(matches!(next, Phase::Aborted(ref t) if t == "x"));
    assert!(reports.is_empty());
}

#[test]
fn push_reports_follow_field_precedence() {
    let (phase, out) = drain_push(vec![
        StreamEvent::Message(PushMessage { status: s("Preparing"), progress: None, error: None }),
        StreamEvent::Message(PushMessage { status: s("Pushing"), progress: s("[==>  ] 1MB/4MB"), error: None }),
        StreamEvent::Message(PushMessage { status: s("Pushing"), progress: s("x"), error: s("denied") }),
        StreamEvent::Message(PushMessage { status: None, progress: s("orphan"), error: None }),
        StreamEvent::Message(PushMessage { status: s("dev: digest: sha256:abc"), progress: None, error: None }),
        StreamEvent::End,
    ]);
    assert!(matches!(phase, Phase::Drained));
    assert_eq!(
        out,
        vec![
            "status:Preparing",
            "status:Pushing|[==>  ] 1MB/4MB",
            "error:denied",
            "status:dev: digest: sha256:abc",
        ]
    );
}

#[test]
fn push_transport_failure_aborts_at_once() {
    let (phase, out) = drain_push(vec![
        StreamEvent::Failure("malformed frame".to_string()),
        StreamEvent::Message(PushMessage { status: s("never"), progress: None, error: None }),
    ]);
    assert!(matches!(phase, Phase::Aborted(ref t) if t == "malformed frame"));
    assert!(out.is_empty());
}

#[test]
fn empty_stream_drains() {
    let (phase, out) = drain_push(vec![StreamEvent::End]);
    assert!(matches!(phase, Phase::Drained));
    assert!(out.is_empty());
}
