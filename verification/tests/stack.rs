use debug_session::error::Blame;
use debug_session::session::{DebugSession, ShowDisassembly};
use debug_session::stack::{
    context_from_frame, handle_execption_info, handle_source, handle_threads, thread_by_id,
    ContextChoice, DisassemblyLine, ExceptionBreakMode, FrameInfo, FrameLine, LocalSource,
    StackTrace, StopReason, ThreadInfo,
};

fn line(local: bool) -> FrameLine {
    FrameLine::Known {
        line: 12,
        column: 3,
        local: if local {
            Some(LocalSource { name: "a.c".to_string(), path: "/w/a.c".to_string() })
        } else {
            None
        },
    }
}

fn frame(line: FrameLine) -> FrameInfo {
    FrameInfo {
        load_address: 0x5555_1234,
        file_address: 0x1234,
        function_name: Some("main".to_string()),
        module_id: Some("5555".to_string()),
        line,
        disassembly: Some(DisassemblyLine {
            line: 40,
            source_name: "@main".to_string(),
            handle: 1007,
        }),
    }
}

#[test]
fn threads_are_named() {
    let threads = handle_threads(&vec![
        ThreadInfo { index_id: 1, thread_id: 1234, name: None },
        ThreadInfo { index_id: 2, thread_id: u64::MAX, name: Some("worker".to_string()) },
    ]);
    assert_eq!((threads[0].id, threads[0].name.as_str()), (1234, "1: tid=1234"));
    assert_eq!(threads[1].id, -1);
    assert_eq!(threads[1].name, "2: tid=18446744073709551615 \"worker\"");
    assert!(handle_threads(&vec![]).is_empty());
}

#[test]
fn missing_threads_are_errors() {
    assert!(thread_by_id(true, true).is_ok());
    let e = thread_by_id(false, true).unwrap_err();
    assert_eq!(e.blame, Blame::Nobody);
    assert_eq!(e.message, "Not available while the process is running.");
    let e = thread_by_id(false, false).unwrap_err();
    assert_eq!((e.blame, e.message.as_str()), (Blame::Internal, "Invalid thread_id."));
}

#[test]
fn disassembly_is_shown_where_no_source_is() {
    let mut s = DebugSession::new(false);
    assert!(!s.in_disassembly(&line(true)));
    assert!(s.in_disassembly(&line(false)));
    assert!(s.in_disassembly(&FrameLine::Unknown));
    s.show_disassembly = ShowDisassembly::Always;
    assert!(s.in_disassembly(&line(true)));
    s.show_disassembly = ShowDisassembly::Never;
    assert!(!s.in_disassembly(&FrameLine::Unknown));
}

#[test]
fn frames_are_shown_in_their_source() {
    let s = DebugSession::new(false);
    let f = s.make_stack_frame(2, 1001, &frame(line(true)));
    assert_eq!(f.id, 1001);
    assert_eq!(f.name, "main");
    assert_eq!((f.line, f.column), (12, 3));
    assert_eq!(f.instruction_pointer_reference.as_deref(), Some("0x55551234"));
    assert_eq!(f.module_id.as_deref(), Some("5555"));
    assert_eq!(f.presentation_hint, None);
    let source = f.source.unwrap();
    assert_eq!(source.name.as_deref(), Some("a.c"));
    assert_eq!(source.path.as_deref(), Some("/w/a.c"));
    assert_eq!(source.source_reference, None);
}

#[test]
fn frames_are_shown_in_disassembly() {
    let s = DebugSession::new(false);
    let f = s.make_stack_frame(2, 1001, &frame(line(false)));
    assert_eq!((f.line, f.column), (40, 0));
    assert_eq!(f.presentation_hint.as_deref(), Some("subtle"));
    let source = f.source.unwrap();
    assert_eq!(source.name.as_deref(), Some("@main"));
    assert_eq!(source.path, None);
    assert_eq!(source.source_reference, Some(1007));
}

#[test]
fn first_frames_are_never_subtle() {
    let mut s = DebugSession::new(false);
    assert_eq!(s.make_stack_frame(0, 1, &frame(line(false))).presentation_hint, None);
    s.show_disassembly = ShowDisassembly::Always;
    let f = s.make_stack_frame(3, 1, &frame(line(true)));
    assert_eq!(f.presentation_hint, None);
    assert_eq!(f.line, 40);
}

#[test]
fn frames_without_anything_are_shown_bare() {
    let mut s = DebugSession::new(false);
    let mut info = frame(FrameLine::Unknown);
    info.function_name = None;
    info.module_id = None;
    info.disassembly = None;
    let f = s.make_stack_frame(0, 1, &info);
    assert_eq!(f.name, "1234");
    assert_eq!(f.module_id, None);
    assert!(f.source.is_none());
    assert_eq!((f.line, f.column), (0, 0));
    s.show_disassembly = ShowDisassembly::Never;
    let f = s.make_stack_frame(1, 1, &frame(line(false)));
    assert!(f.source.is_none() && f.presentation_hint.is_none());
    assert_eq!((f.line, f.column), (0, 0));
}

#[test]
fn traces_end_with_the_stack() {
    let s = DebugSession::new(false);
    let mut t = StackTrace::handle_stack_trace(true, false, None, None).unwrap();
    assert_eq!(t.walk.index(), Some(0));
    assert_eq!(t.frame_key(7), "[7,0]");
    t.frame_found(&s, Some((1001, frame(line(false)))));
    assert_eq!(t.frame_key(7), "[7,1]");
    t.frame_found(&s, Some((1002, frame(line(false)))));
    t.frame_found(&s, None);
    assert_eq!(t.walk.index(), None);
    assert_eq!(t.stack_frames.len(), 2);
    assert_eq!((t.stack_frames[0].id, t.stack_frames[1].id), (1001, 1002));
    assert_eq!(t.stack_frames[0].presentation_hint, None);
    assert_eq!(t.stack_frames[1].presentation_hint.as_deref(), Some("subtle"));
}

#[test]
fn traces_end_with_their_levels() {
    let s = DebugSession::new(false);
    let mut t = StackTrace::handle_stack_trace(true, false, Some(20), Some(1)).unwrap();
    assert_eq!(t.walk.index(), Some(20));
    assert_eq!(t.frame_key(1), "[1,20]");
    t.frame_found(&s, Some((1, frame(line(true)))));
    assert_eq!(t.walk.index(), None);
    let t = StackTrace::handle_stack_trace(true, false, Some(20), Some(0)).unwrap();
    assert_eq!(t.walk.index(), None);
}

#[test]
fn traces_need_their_thread() {
    let e = StackTrace::handle_stack_trace(false, true, Some(1), None).unwrap_err();
    assert_eq!(e.blame, Blame::Nobody);
}

#[test]
fn stop_reasons_are_told_by_name() {
    for (reason, name) in [
        (StopReason::Invalid, "Invalid"),
        (StopReason::NoReason, "None"),
        (StopReason::Trace, "Trace"),
        (StopReason::Breakpoint, "Breakpoint"),
        (StopReason::Watchpoint, "Watchpoint"),
        (StopReason::Signal, "Signal"),
        (StopReason::Exception, "Exception"),
        (StopReason::PlanComplete, "PlanComplete"),
        (StopReason::Other("Exec".to_string()), "Exec"),
    ] {
        let info = handle_execption_info(true, false, &reason, "why").unwrap();
        assert_eq!(info.exception_id, name);
        assert_eq!(info.description.as_deref(), Some("why"));
        assert_eq!(info.break_mode, ExceptionBreakMode::Always);
    }
    let e = handle_execption_info(false, false, &StopReason::Signal, "").unwrap_err();
    assert_eq!(e.message, "Invalid thread_id.");
}

#[test]
fn expressions_prefer_a_frame() {
    assert_eq!(context_from_frame(true, false), ContextChoice::Frame);
    assert_eq!(context_from_frame(false, true), ContextChoice::SelectedThread);
    assert_eq!(context_from_frame(false, false), ContextChoice::SelectedTarget);
}

#[test]
fn disassembly_has_a_type_of_its_own() {
    let r = handle_source("nop".to_string());
    assert_eq!(r.content, "nop");
    assert_eq!(r.mime_type.as_deref(), Some("text/x-lldb.disassembly"));
}

fn page(names: &[&str], start: i64, levels: i64) -> Vec<(i64, String)> {
    let s = DebugSession::new(false);
    let mut t = StackTrace::handle_stack_trace(true, false, Some(start), Some(levels)).unwrap();
    while let Some(index) = t.walk.index() {
        let found = names.get(index as usize).map(|name| {
            let mut info = frame(line(true));
            info.function_name = Some(name.to_string());
            (1000 + index, info)
        });
        t.frame_found(&s, found);
    }
    t.stack_frames.into_iter().map(|f| (f.id, f.name)).collect()
}

#[test]
fn adjoining_pages_hold_what_one_page_holds() {
    let names = ["a", "b", "c", "d", "e"];
    for first in 0..7 {
        for second in 0..7 {
            let mut both = page(&names, 1, first);
            both.extend(page(&names, 1 + first, second));
            assert_eq!(both, page(&names, 1, first + second));
        }
    }
    assert_eq!(page(&names, 3, 9), vec![(1003, "d".to_string()), (1004, "e".to_string())]);
    assert!(page(&names, 3, -1).is_empty());
}
