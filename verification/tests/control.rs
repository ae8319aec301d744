use debug_session::control::{continue_answered, handle_pause, Notice, SteppingGranularity};
use debug_session::data_breakpoints::FrameChoice;
use debug_session::error::Blame;
use debug_session::goto_requests::GotoTargetsArguments;
use debug_session::protocol::Source;
use debug_session::session::{Action, Container, DebugSession, ShowDisassembly};
use debug_session::stack::{FrameLine, LocalSource};

fn busy_session() -> DebugSession {
    let mut s = DebugSession::new(false);
    s.selected_frame_changed = true;
    s.last_goto_request = Some(GotoTargetsArguments {
        source: Source { name: None, path: Some("/a.c".to_string()), source_reference: None },
        line: 3,
    });
    s
}

fn forgot(s: &DebugSession) -> bool {
    !s.selected_frame_changed && s.last_goto_request.is_none()
}

fn resets(actions: &Vec<Action>) -> bool {
    actions.len() == 2
        && matches!(actions[0], Action::ResetVariables)
        && matches!(actions[1], Action::ClearStepInTargets)
}

fn known_line(local: bool) -> FrameLine {
    FrameLine::Known {
        line: 1,
        column: 1,
        local: if local {
            Some(LocalSource { name: "a.c".to_string(), path: "/a.c".to_string() })
        } else {
            None
        },
    }
}

#[test]
fn pause_makes_up_for_a_lost_stop() {
    assert_eq!(handle_pause(Ok(()), true).unwrap(), Notice::Awaited);
    assert_eq!(handle_pause(Err("no".to_string()), false).unwrap(), Notice::Due);
    let e = handle_pause(Err("no".to_string()), true).unwrap_err();
    assert_eq!((e.blame, e.message.as_str()), (Blame::User, "no"));
}

#[test]
fn continue_makes_up_for_a_lost_start() {
    let (response, notice) = continue_answered(Ok(()), false).unwrap();
    assert_eq!((response.all_threads_continued, notice), (Some(true), Notice::Awaited));
    let (response, notice) = continue_answered(Err("no".to_string()), true).unwrap();
    assert_eq!((response.all_threads_continued, notice), (Some(true), Notice::Due));
    let e = continue_answered(Err("no".to_string()), false).unwrap_err();
    assert_eq!((e.blame, e.message.as_str()), (Blame::User, "no"));
}

#[test]
fn continue_forgets_first() {
    let mut s = busy_session();
    assert!(resets(&s.handle_continue()));
    assert!(forgot(&s));
}

#[test]
fn step_over_needs_its_thread_first() {
    let mut s = busy_session();
    let e = s.handle_next(false, true).unwrap_err();
    assert_eq!(e.message, "Not available while the process is running.");
    assert_eq!(e.blame, Blame::Nobody);
    let e = s.handle_next(false, false).unwrap_err();
    assert_eq!(e.message, "Invalid thread_id.");
    assert_eq!(e.blame, Blame::Internal);
    assert!(!forgot(&s));
    assert!(resets(&s.handle_next(true, false).unwrap()));
    assert!(forgot(&s));
}

#[test]
fn step_out_forgets_before_it_needs_its_thread() {
    let mut s = busy_session();
    let (actions, r) = s.handle_step_out(false, false);
    assert!(resets(&actions));
    assert_eq!(r.unwrap_err().message, "Invalid thread_id.");
    assert!(forgot(&s));
    assert!(s.handle_step_out(true, false).1.is_ok());
}

#[test]
fn granularity_decides_over_the_frame() {
    let s = DebugSession::new(false);
    let shown = known_line(true);
    let hidden = known_line(false);
    assert!(s.step_instruction(Some(SteppingGranularity::Instruction), &shown));
    assert!(!s.step_instruction(Some(SteppingGranularity::Line), &hidden));
    assert!(!s.step_instruction(Some(SteppingGranularity::Statement), &hidden));
    assert!(!s.step_instruction(None, &shown));
    assert!(s.step_instruction(None, &hidden));
    assert!(s.step_instruction(None, &FrameLine::Unknown));
}

#[test]
fn step_back_switches_to_disassembly() {
    let mut s = busy_session();
    let (actions, script) = s.handle_step_back(16);
    assert!(resets(&actions) && forgot(&s));
    assert_eq!(s.show_disassembly, ShowDisassembly::Always);
    assert_eq!(script.commands[0], "process plugin packet send Hc10");
    assert_eq!(script.commands[1], "process plugin packet send bs");
    assert_eq!(script.next_command().unwrap(), "process plugin packet send Hc10");
}

#[test]
fn reverse_continue_keeps_the_display() {
    let mut s = busy_session();
    let (actions, script) = s.handle_reverse_continue(16);
    assert!(resets(&actions) && forgot(&s));
    assert_eq!(s.show_disassembly, ShowDisassembly::Auto);
    assert_eq!(script.commands[1], "process plugin packet send bc");
}

#[test]
fn resuming_forgets_line_and_frame() {
    let mut s = busy_session();
    assert!(s.handle_goto(true, false).is_ok());
    assert_eq!(s.frame_choice(Some(Container::StackFrame)), FrameChoice::SelectedInThread);
    s.before_resume();
    assert_eq!(s.handle_goto(true, false).unwrap_err().message, "Unexpected goto message.");
    assert_eq!(s.frame_choice(Some(Container::StackFrame)), FrameChoice::Given);
    assert_eq!(s.frame_choice(Some(Container::Locals)), FrameChoice::NoFrame);
    assert_eq!(s.frame_choice(None), FrameChoice::NoFrame);
}
