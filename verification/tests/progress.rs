use gradio_macro::progress::{
    on_event, show_progress, Channel, Notice, ProgressUnit, Reaction, Step, StreamEvent,
};

fn unit(index: usize, length: Option<usize>, unit: &str) -> ProgressUnit {
    ProgressUnit { index, length, unit: unit.to_string() }
}

#[test]
fn a_successful_call_shows_its_progress_and_returns_the_output() {
    let events = vec![
        StreamEvent::Open,
        StreamEvent::Progress { eta: "Some(5.0)".to_string(), progress: None },
        StreamEvent::Completed { output: vec!["text".to_string()], success: true },
    ];
    let outcome = show_progress(events);
    assert_eq!(
        outcome.notices,
        vec![
            Notice::Started,
            Notice::Processing { eta: "Some(5.0)".to_string() },
            Notice::Completed
        ]
    );
    assert_eq!(outcome.output, Some(vec!["text".to_string()]));
}

#[test]
fn a_failed_call_reports_failure_and_returns_nothing() {
    let events = vec![
        StreamEvent::Open,
        StreamEvent::Progress { eta: "Some(5.0)".to_string(), progress: None },
        StreamEvent::Completed { output: vec!["partial".to_string()], success: false },
    ];
    let outcome = show_progress(events);
    assert_eq!(outcome.notices.last(), Some(&Notice::Failed));
    assert_eq!(outcome.notices.len(), 3);
    assert_eq!(outcome.output, None);
}

#[test]
fn events_behind_the_completion_are_not_reached() {
    let events = vec![
        StreamEvent::Completed { output: 1u8, success: true },
        StreamEvent::Open,
        StreamEvent::Completed { output: 2u8, success: true },
    ];
    let outcome = show_progress(events);
    assert_eq!(outcome.notices, vec![Notice::Completed]);
    assert_eq!(outcome.output, Some(1));
}

#[test]
fn a_stream_that_runs_out_has_no_output() {
    let events: Vec<StreamEvent<u8>> = vec![StreamEvent::Open, StreamEvent::Heartbeat];
    let outcome = show_progress(events);
    assert_eq!(outcome.notices, vec![Notice::Started]);
    assert_eq!(outcome.output, None);
    let nothing = show_progress(Vec::<StreamEvent<u8>>::new());
    assert!(nothing.notices.is_empty());
    assert_eq!(nothing.output, None);
}

#[test]
fn errors_and_unknown_events_do_not_end_the_consumption() {
    let events = vec![
        StreamEvent::Broken { error: "Client Error".to_string() },
        StreamEvent::Unknown { raw: "{\"msg\":\"new\"}".to_string() },
        StreamEvent::UnexpectedError { message: None },
        StreamEvent::UnexpectedError { message: Some("boom".to_string()) },
        StreamEvent::Completed { output: 9u8, success: true },
    ];
    let outcome = show_progress(events);
    assert_eq!(
        outcome.notices,
        vec![
            Notice::StreamError { error: "Client Error".to_string() },
            Notice::Skipped { raw: "{\"msg\":\"new\"}".to_string() },
            Notice::UnexpectedError { message: "_".to_string() },
            Notice::UnexpectedError { message: "boom".to_string() },
            Notice::Completed,
        ]
    );
    assert_eq!(outcome.output, Some(9));
}

#[test]
fn the_queue_position_counts_from_one() {
    let r: Reaction<u8> =
        on_event(StreamEvent::Estimation { rank: 0, queue_size: 4, rank_eta: "12.5".to_string() });
    assert_eq!(
        r.notices,
        vec![Notice::InQueue { position: 1, queue_size: 4, eta: "12.5".to_string() }]
    );
    assert_eq!(r.step, Step::Continue);
    let last: Reaction<u8> = on_event(StreamEvent::Estimation {
        rank: i64::MAX,
        queue_size: 0,
        rank_eta: String::new(),
    });
    assert_eq!(
        last.notices,
        vec![Notice::InQueue { position: i64::MAX as i128 + 1, queue_size: 0, eta: String::new() }]
    );
}

#[test]
fn the_first_progress_record_is_shown() {
    let r: Reaction<u8> = on_event(StreamEvent::Progress {
        eta: "None".to_string(),
        progress: Some(vec![unit(2, Some(10), "steps"), unit(7, None, "files")]),
    });
    assert_eq!(
        r.notices,
        vec![
            Notice::Processing { eta: "None".to_string() },
            Notice::Progress { done: 3, length: 10, unit: "steps".to_string() },
        ]
    );
    assert_eq!(r.step, Step::Continue);
}

#[test]
fn an_unknown_length_is_shown_as_zero() {
    let r: Reaction<u8> = on_event(StreamEvent::ProcessStarts {
        eta: "Some(1.5)".to_string(),
        progress: Some(vec![unit(0, None, "it")]),
    });
    assert_eq!(
        r.notices,
        vec![
            Notice::Processing { eta: "Some(1.5)".to_string() },
            Notice::Progress { done: 1, length: 0, unit: "it".to_string() },
        ]
    );
}

#[test]
fn the_greatest_index_does_not_overflow() {
    let r: Reaction<u8> = on_event(StreamEvent::Progress {
        eta: String::new(),
        progress: Some(vec![unit(usize::MAX, Some(usize::MAX), "b")]),
    });
    assert_eq!(
        r.notices[1],
        Notice::Progress { done: usize::MAX as u128 + 1, length: usize::MAX, unit: "b".to_string() }
    );
}

#[test]
fn log_lines_show_their_event_id() {
    let with: Reaction<u8> = on_event(StreamEvent::Log { event_id: Some("e1".to_string()) });
    assert_eq!(with.notices, vec![Notice::Log { event_id: "e1".to_string() }]);
    let without: Reaction<u8> = on_event(StreamEvent::Log { event_id: None });
    assert_eq!(without.notices, vec![Notice::Log { event_id: "_".to_string() }]);
}

#[test]
fn a_heartbeat_shows_nothing() {
    let r: Reaction<u8> = on_event(StreamEvent::Heartbeat);
    assert!(r.notices.is_empty());
    assert_eq!(r.step, Step::Continue);
}

#[test]
fn a_completion_ends_the_consumption() {
    let ok = on_event(StreamEvent::Completed { output: "out", success: true });
    assert_eq!(ok.notices, vec![Notice::Completed]);
    assert_eq!(ok.step, Step::Finished(Some("out")));
    let failed = on_event(StreamEvent::Completed { output: "out", success: false });
    assert_eq!(failed.notices, vec![Notice::Failed]);
    assert_eq!(failed.step, Step::Finished(None));
}

#[test]
fn refusals_and_errors_go_to_the_diagnostics() {
    assert_eq!(Notice::Started.channel(), Channel::Output);
    assert_eq!(Notice::Completed.channel(), Channel::Output);
    assert_eq!(Notice::Processing { eta: String::new() }.channel(), Channel::Output);
    assert_eq!(
        Notice::Progress { done: 1, length: 2, unit: String::new() }.channel(),
        Channel::Output
    );
    assert_eq!(
        Notice::InQueue { position: 1, queue_size: 1, eta: String::new() }.channel(),
        Channel::Output
    );
    assert_eq!(Notice::Log { event_id: String::new() }.channel(), Channel::Output);
    assert_eq!(Notice::Failed.channel(), Channel::Diagnostic);
    assert_eq!(Notice::StreamError { error: String::new() }.channel(), Channel::Diagnostic);
    assert_eq!(Notice::UnexpectedError { message: String::new() }.channel(), Channel::Diagnostic);
    assert_eq!(Notice::Skipped { raw: String::new() }.channel(), Channel::Diagnostic);
}
