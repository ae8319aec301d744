use debug_session::data_breakpoints::{
    data_breakpoints_set, handle_set_data_breakpoints, DataBreakpoint, WatchOutcome,
};
use debug_session::events::{
    handle_debug_event, handle_process_event, notify_process_running, notify_process_stopped,
    notify_process_terminated, output_read, stopped_thread, EventClass, EventReadings,
    ProcessEvent, ProcessState, ProcessStep, StoppedThread,
};
use debug_session::protocol::{Event, StoppedEventBody};
use debug_session::session::DebugSession;
use debug_session::stack::StopReason;

fn thread(reason: StopReason, data: u64, description: &str) -> StoppedThread {
    StoppedThread { thread_id: 77, reason, data, description: description.to_string() }
}

fn stop(events: &Vec<Event>) -> &StoppedEventBody {
    match events.last() {
        Some(Event::Stopped(body)) => body,
        _ => panic!("no stop: {:?}", events),
    }
}

fn text(e: &Event) -> (Option<&str>, &str) {
    match e {
        Event::Output { category, output } => (category.as_deref(), output),
        _ => panic!("not output: {:?}", e),
    }
}

fn process(state: ProcessState) -> ProcessEvent {
    ProcessEvent { state_changed: true, stdout: false, stderr: false, state, restarted: false }
}

#[test]
fn events_are_read_in_order() {
    let none = EventReadings {
        process: false,
        target: false,
        breakpoint: false,
        thread: false,
        diagnostic: false,
    };
    let all = EventReadings {
        process: true,
        target: true,
        breakpoint: true,
        thread: true,
        diagnostic: true,
    };
    assert_eq!(handle_debug_event(all), EventClass::Process);
    assert_eq!(handle_debug_event(EventReadings { process: false, ..all }), EventClass::Target);
    assert_eq!(
        handle_debug_event(EventReadings { breakpoint: true, thread: true, ..none }),
        EventClass::Breakpoint
    );
    assert_eq!(
        handle_debug_event(EventReadings { thread: true, diagnostic: true, ..none }),
        EventClass::Thread
    );
    assert_eq!(
        handle_debug_event(EventReadings { diagnostic: true, ..none }),
        EventClass::Diagnostic
    );
    assert_eq!(handle_debug_event(none), EventClass::Ignored);
}

#[test]
fn states_are_told() {
    for (state, steps) in [
        (ProcessState::Running, vec![ProcessStep::NotifyRunning]),
        (ProcessState::Stepping, vec![ProcessStep::NotifyRunning]),
        (ProcessState::Attaching, vec![ProcessStep::NotifyRunning]),
        (ProcessState::Launching, vec![ProcessStep::NotifyRunning]),
        (ProcessState::Stopped, vec![ProcessStep::NotifyStopped]),
        (ProcessState::Crashed, vec![ProcessStep::NotifyStopped]),
        (ProcessState::Suspended, vec![ProcessStep::NotifyStopped]),
        (ProcessState::Exited, vec![ProcessStep::NotifyTerminated]),
        (ProcessState::Detached, vec![ProcessStep::NotifyTerminated]),
        (ProcessState::Invalid, vec![]),
        (ProcessState::Unloaded, vec![]),
        (ProcessState::Connected, vec![]),
    ] {
        assert_eq!(handle_process_event(process(state)), steps);
    }
}

#[test]
fn restarted_stops_are_not_told() {
    let event = ProcessEvent { restarted: true, ..process(ProcessState::Stopped) };
    assert!(handle_process_event(event).is_empty());
    let event = ProcessEvent { restarted: true, ..process(ProcessState::Crashed) };
    assert_eq!(handle_process_event(event), vec![ProcessStep::NotifyStopped]);
}

#[test]
fn standard_output_comes_before_standard_error() {
    let event = ProcessEvent { stdout: true, stderr: true, ..process(ProcessState::Running) };
    assert_eq!(
        handle_process_event(event),
        vec![ProcessStep::NotifyRunning, ProcessStep::ReadStdout]
    );
    let event = ProcessEvent { state_changed: false, stderr: true, ..process(ProcessState::Stopped) };
    assert_eq!(handle_process_event(event), vec![ProcessStep::ReadStderr]);
}

#[test]
fn output_ends_with_an_empty_piece() {
    let e = output_read("stdout", b"h\xc3\xa9\n").unwrap();
    assert_eq!(text(&e), (Some("stdout"), "h\u{e9}\n"));
    assert!(output_read("stderr", b"").is_none());
}

#[test]
fn running_is_told_with_the_first_thread() {
    assert!(matches!(
        notify_process_running(42),
        Event::Continued { thread_id: 42, all_threads_continued: Some(true) }
    ));
    assert!(matches!(notify_process_running(u64::MAX), Event::Continued { thread_id: -1, .. }));
}

#[test]
fn first_thread_with_a_reason_is_shown() {
    let none = || StopReason::NoReason;
    let threads = vec![StopReason::Invalid, none(), StopReason::Signal, StopReason::Breakpoint];
    assert_eq!(stopped_thread(&StopReason::Trace, &threads), None);
    assert_eq!(stopped_thread(&none(), &threads), Some(2));
    assert_eq!(stopped_thread(&StopReason::Invalid, &threads), Some(2));
    assert_eq!(stopped_thread(&none(), &vec![none(), StopReason::Invalid]), None);
    let other = vec![none(), StopReason::Other("Exec".to_string())];
    assert_eq!(stopped_thread(&none(), &other), Some(1));
}

#[test]
fn breakpoints_are_named() {
    let events = notify_process_stopped(&thread(StopReason::Breakpoint, 5, "ignored"));
    assert_eq!(events.len(), 1);
    let body = stop(&events);
    assert_eq!(body.reason, "breakpoint");
    assert_eq!(body.description, None);
    assert_eq!(body.thread_id, Some(77));
    assert_eq!(body.all_threads_stopped, Some(true));
    assert_eq!(body.preserve_focus_hint, None);
    assert_eq!(body.hit_breakpoint_ids, Some(vec![5]));
}

#[test]
fn watchpoints_are_named_as_they_were_set() {
    let (_, plan) = handle_set_data_breakpoints(&vec![DataBreakpoint {
        data_id: "16/4".to_string(),
        access_type: None,
    }]);
    let bps = data_breakpoints_set(plan, &vec![WatchOutcome::Watching(3)]).unwrap();
    let events = notify_process_stopped(&thread(StopReason::Watchpoint, 3, "ignored"));
    assert_eq!(stop(&events).reason, "data breakpoint");
    assert_eq!(stop(&events).hit_breakpoint_ids, Some(vec![bps[0].id.unwrap()]));
    assert_eq!(stop(&events).hit_breakpoint_ids, Some(vec![1_000_003]));
}

#[test]
fn steps_carry_no_description() {
    for reason in [StopReason::Trace, StopReason::PlanComplete] {
        let events = notify_process_stopped(&thread(reason, 0, "step over"));
        assert_eq!(events.len(), 1);
        assert_eq!(stop(&events).reason, "step");
        assert_eq!(stop(&events).description, None);
        assert_eq!(stop(&events).hit_breakpoint_ids, None);
    }
}

#[test]
fn exceptions_are_described() {
    for (reason, told) in [
        (StopReason::Signal, "exception"),
        (StopReason::Exception, "exception"),
        (StopReason::Other("Exec".to_string()), "unknown"),
        (StopReason::NoReason, "unknown"),
    ] {
        let events = notify_process_stopped(&thread(reason, 0, "signal SIGSEGV"));
        assert_eq!(events.len(), 2);
        assert_eq!(text(&events[0]), (Some("stderr"), "Stop reason: signal SIGSEGV\n"));
        assert_eq!(stop(&events).reason, told);
        assert_eq!(stop(&events).description.as_deref(), Some("signal SIGSEGV"));
    }
}

#[test]
fn empty_descriptions_are_left_out() {
    let events = notify_process_stopped(&thread(StopReason::Signal, 0, ""));
    assert_eq!(events.len(), 1);
    assert_eq!(stop(&events).description, None);
}

#[test]
fn exits_are_told_with_their_code() {
    let events = notify_process_terminated(ProcessState::Exited, -9);
    assert_eq!(events.len(), 3);
    assert_eq!(text(&events[0]), (Some("console"), "Process exited with code -9.\n"));
    assert!(matches!(events[1], Event::Exited { exit_code: -9 }));
    assert!(matches!(events[2], Event::Terminated));
}

#[test]
fn detaching_ends_without_a_code() {
    let events = notify_process_terminated(ProcessState::Detached, 0);
    assert_eq!(events.len(), 2);
    assert_eq!(text(&events[0]), (Some("console"), "Detached from debuggee.\n"));
    assert!(matches!(events[1], Event::Terminated));
    assert!(notify_process_terminated(ProcessState::Stopped, 0).is_empty());
}

#[test]
fn selected_frames_are_noted() {
    let mut s = DebugSession::new(false);
    s.handle_thread_event(false);
    assert!(!s.selected_frame_changed);
    s.handle_thread_event(true);
    assert!(s.selected_frame_changed);
    s.handle_thread_event(false);
    assert!(s.selected_frame_changed);
}
