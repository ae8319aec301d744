use debug_session::error::Blame;
use debug_session::goto_requests::{
    frame_restarted, handle_restart_frame, AddressMove, GotoPlan, GotoTargetsArguments,
};
use debug_session::protocol::{Event, Source};
use debug_session::session::{Container, DebugSession, InitializeRequestArguments};

fn session() -> DebugSession {
    let mut s = DebugSession::new(false);
    s.client_caps = Some(InitializeRequestArguments { supports_invalidated_event: None });
    s
}

fn asked(path: Option<&str>, source_reference: Option<i64>, line: i64) -> GotoTargetsArguments {
    GotoTargetsArguments {
        source: Source { name: None, path: path.map(|p| p.to_string()), source_reference },
        line,
    }
}

#[test]
fn one_target_is_offered() {
    let mut s = session();
    let targets = s.handle_goto_targets(asked(Some("/a.c"), None, 12));
    assert_eq!(targets.len(), 1);
    assert_eq!(targets[0].id, 1);
    assert_eq!(targets[0].label, "line 12");
    assert_eq!(targets[0].line, 12);
    assert_eq!(s.last_goto_request.as_ref().unwrap().line, 12);
}

#[test]
fn offered_lines_are_reached() {
    let mut s = session();
    s.handle_goto_targets(asked(Some("/a.c"), None, 12));
    match s.handle_goto(true, false).unwrap() {
        GotoPlan::SourceFile { path, line } => assert_eq!((path.as_str(), line), ("/a.c", 12)),
        plan => panic!("{:?}", plan),
    }
    s.handle_goto_targets(asked(Some("/a.c"), Some(1003), 7));
    match s.handle_goto(true, false).unwrap() {
        GotoPlan::Disassembly { source_reference, line } => {
            assert_eq!((source_reference, line), (1003, 7));
        }
        plan => panic!("{:?}", plan),
    }
}

#[test]
fn goto_is_refused_in_order() {
    let mut s = session();
    let e = s.handle_goto(false, true).unwrap_err();
    assert_eq!((e.blame, e.message.as_str()), (Blame::Internal, "Unexpected goto message."));
    s.handle_goto_targets(asked(None, None, 1));
    let e = s.handle_goto(false, true).unwrap_err();
    assert_eq!(e.blame, Blame::Nobody);
    let e = s.handle_goto(false, false).unwrap_err();
    assert_eq!(e.message, "Invalid thread_id.");
    let e = s.handle_goto(true, false).unwrap_err();
    assert_eq!((e.blame, e.message.as_str()), (Blame::Internal, "source.path"));
}

#[test]
fn address_moves_are_answered() {
    let mut s = session();
    s.handle_goto_targets(asked(None, Some(1003), 7));
    let events = s.address_moved(5, AddressMove::Moved).unwrap();
    assert_eq!(events.len(), 1);
    match &events[0] {
        Event::Stopped(body) => {
            assert_eq!(body.reason, "");
            assert_eq!(body.thread_id, Some(5));
        }
        e => panic!("{:?}", e),
    }
    // The same place can be asked for again.
    assert!(s.handle_goto(true, false).is_ok());
}

#[test]
fn failed_address_moves_are_errors() {
    let s = session();
    for (outcome, blame, message) in [
        (AddressMove::BadHandle("bad".to_string()), Blame::Internal, "bad"),
        (AddressMove::NoRange, Blame::Internal, "source_ref"),
        (AddressMove::NoFrame, Blame::Internal, "frame 0"),
        (AddressMove::Refused, Blame::User, "Failed to set the instruction pointer."),
    ] {
        let e = s.address_moved(5, outcome).unwrap_err();
        assert_eq!((e.blame, e.message.as_str()), (blame, message));
    }
}

#[test]
fn line_moves_forget_the_place_on_success() {
    let mut s = session();
    s.client_caps = Some(InitializeRequestArguments { supports_invalidated_event: Some(true) });
    s.handle_goto_targets(asked(Some("/a.c"), None, 12));
    let e = s.line_moved(5, Err("no line".to_string())).unwrap_err();
    assert_eq!((e.blame, e.message.as_str()), (Blame::User, "no line"));
    assert!(s.last_goto_request.is_some());
    let events = s.line_moved(5, Ok(())).unwrap();
    assert_eq!(events.len(), 2);
    assert!(matches!(events[0], Event::Invalidated { thread_id: Some(5) }));
    assert!(s.last_goto_request.is_none());
}

#[test]
fn only_frames_are_restarted() {
    assert!(handle_restart_frame(Some(Container::StackFrame)).is_ok());
    for container in [Some(Container::Locals), Some(Container::Value), None] {
        let e = handle_restart_frame(container).unwrap_err();
        assert_eq!((e.blame, e.message.as_str()), (Blame::Internal, "Invalid frameId"));
    }
}

#[test]
fn restarts_are_told_as_stops() {
    match frame_restarted(8, Ok(())).unwrap() {
        Event::Stopped(body) => {
            assert_eq!(body.reason, "restart");
            assert_eq!(body.thread_id, Some(8));
            assert_eq!(body.all_threads_stopped, Some(true));
            assert_eq!(body.description, None);
        }
        e => panic!("{:?}", e),
    }
    let e = frame_restarted(8, Err("cannot".to_string())).unwrap_err();
    assert_eq!((e.blame, e.message.as_str()), (Blame::Internal, "cannot"));
}
