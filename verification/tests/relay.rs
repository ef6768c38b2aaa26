use backend_supervisor::relay::{relay_decide, run_relay, ProcessEvent};

#[test]
fn forwards_all_lines_then_one_terminal_event() {
    let events = vec![
        ProcessEvent::StdoutLine("listening on 127.0.0.1:8000".to_string()),
        ProcessEvent::StdoutLine("ready".to_string()),
        ProcessEvent::StdoutLine("request served".to_string()),
        ProcessEvent::Terminated(Some(0)),
    ];
    let log = run_relay(events.clone());
    assert_eq!(log, events);
}

#[test]
fn stops_at_the_first_terminal_event() {
    let events = vec![
        ProcessEvent::StdoutLine("one".to_string()),
        ProcessEvent::Terminated(Some(1)),
        ProcessEvent::StdoutLine("never received".to_string()),
        ProcessEvent::Terminated(Some(2)),
    ];
    let log = run_relay(events);
    assert_eq!(
        log,
        vec![
            ProcessEvent::StdoutLine("one".to_string()),
            ProcessEvent::Terminated(Some(1)),
        ]
    );
}

#[test]
fn channel_closure_without_terminal_event_forwards_everything() {
    let events = vec![
        ProcessEvent::StdoutLine("partial".to_string()),
        ProcessEvent::StderrLine("warning: slow start".to_string()),
        ProcessEvent::Error("stream read failed".to_string()),
    ];
    let log = run_relay(events.clone());
    assert_eq!(log, events);
}

#[test]
fn empty_channel_yields_empty_log() {
    let log = run_relay(Vec::new());
    assert_eq!(log, Vec::new());
}

#[test]
fn killed_process_terminates_relay_without_exit_code() {
    let events = vec![
        ProcessEvent::StderrLine("shutting down".to_string()),
        ProcessEvent::Terminated(None),
    ];
    let log = run_relay(events.clone());
    assert_eq!(log, events);
}

#[test]
fn only_the_terminal_event_ends_the_loop() {
    assert!(!relay_decide(&ProcessEvent::StdoutLine("line".to_string())));
    assert!(!relay_decide(&ProcessEvent::StderrLine("line".to_string())));
    assert!(!relay_decide(&ProcessEvent::Error("fatal".to_string())));
    assert!(relay_decide(&ProcessEvent::Terminated(Some(0))));
    assert!(relay_decide(&ProcessEvent::Terminated(None)));
}
