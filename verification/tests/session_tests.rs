use splitpane::session::{is_quit_event, run_session, BackendReply, InputEvent, SessionEnd, TraceItem};

fn count(trace: &[TraceItem], x: TraceItem) -> usize {
    trace.iter().filter(|t| **t == x).count()
}

#[test]
fn quit_after_three_ignored_events() {
    let replies = vec![
        BackendReply::RenderOk,
        BackendReply::Received(InputEvent::Character('x')),
        BackendReply::RenderOk,
        BackendReply::Received(InputEvent::OtherKey),
        BackendReply::RenderOk,
        BackendReply::Received(InputEvent::Mouse),
        BackendReply::RenderOk,
        BackendReply::Received(InputEvent::Character('q')),
    ];
    let (trace, end) = run_session(&replies);
    assert_eq!(end, SessionEnd::Quit);
    assert_eq!(count(&trace, TraceItem::RenderCall), 4);
    assert_eq!(count(&trace, TraceItem::ReadCall), 4);
    assert_eq!(
        &trace[trace.len() - 3..],
        &[TraceItem::RestoreRawMode, TraceItem::LeaveAltScreen, TraceItem::ShowCursor]
    );
    assert_eq!(count(&trace, TraceItem::ReportError), 0);
}

#[test]
fn a_stream_without_q_never_quits() {
    let replies = vec![
        BackendReply::RenderOk,
        BackendReply::Received(InputEvent::Character('x')),
        BackendReply::RenderOk,
        BackendReply::Received(InputEvent::Character('A')),
        BackendReply::RenderOk,
        BackendReply::Received(InputEvent::Mouse),
    ];
    let (trace, end) = run_session(&replies);
    assert_eq!(end, SessionEnd::Blocked);
    assert_eq!(count(&trace, TraceItem::RestoreRawMode), 0);
    assert_eq!(count(&trace, TraceItem::LeaveAltScreen), 0);
    assert_eq!(count(&trace, TraceItem::ShowCursor), 0);
    assert_eq!(count(&trace, TraceItem::ReportError), 0);
}

#[test]
fn uppercase_q_does_not_quit() {
    let replies = vec![
        BackendReply::RenderOk,
        BackendReply::Received(InputEvent::Character('Q')),
    ];
    let (_, end) = run_session(&replies);
    assert_eq!(end, SessionEnd::Blocked);
}

#[test]
fn resize_events_are_ignored() {
    let replies = vec![
        BackendReply::RenderOk,
        BackendReply::Received(InputEvent::Resize),
        BackendReply::RenderOk,
        BackendReply::Received(InputEvent::Character('q')),
    ];
    let (trace, end) = run_session(&replies);
    assert_eq!(end, SessionEnd::Quit);
    assert_eq!(count(&trace, TraceItem::RenderCall), 2);
}

#[test]
fn teardown_runs_once_when_the_second_render_fails() {
    let replies = vec![
        BackendReply::RenderOk,
        BackendReply::Received(InputEvent::Character('x')),
        BackendReply::RenderFailed,
    ];
    let (trace, end) = run_session(&replies);
    assert_eq!(end, SessionEnd::Failed);
    assert_eq!(
        trace,
        vec![
            TraceItem::RenderCall,
            TraceItem::ReadCall,
            TraceItem::RenderCall,
            TraceItem::RestoreRawMode,
            TraceItem::LeaveAltScreen,
            TraceItem::ShowCursor,
            TraceItem::ReportError,
        ]
    );
    assert_eq!(count(&trace, TraceItem::RestoreRawMode), 1);
    assert_eq!(count(&trace, TraceItem::LeaveAltScreen), 1);
    assert_eq!(count(&trace, TraceItem::ShowCursor), 1);
}

#[test]
fn teardown_runs_once_when_a_read_fails() {
    let replies = vec![BackendReply::RenderOk, BackendReply::ReadFailed];
    let (trace, end) = run_session(&replies);
    assert_eq!(end, SessionEnd::Failed);
    assert_eq!(
        trace,
        vec![
            TraceItem::RenderCall,
            TraceItem::ReadCall,
            TraceItem::RestoreRawMode,
            TraceItem::LeaveAltScreen,
            TraceItem::ShowCursor,
            TraceItem::ReportError,
        ]
    );
}

#[test]
fn an_empty_script_performs_nothing() {
    let replies: Vec<BackendReply> = Vec::new();
    let (trace, end) = run_session(&replies);
    assert_eq!(end, SessionEnd::Blocked);
    assert!(trace.is_empty());
}

#[test]
fn quit_decision_matches_the_quit_key_alone() {
    assert!(is_quit_event(&InputEvent::Character('q')));
    assert!(!is_quit_event(&InputEvent::Character('Q')));
    assert!(!is_quit_event(&InputEvent::Character('x')));
    assert!(!is_quit_event(&InputEvent::OtherKey));
    assert!(!is_quit_event(&InputEvent::Mouse));
    assert!(!is_quit_event(&InputEvent::Resize));
}
