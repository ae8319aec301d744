use debug_session::console::{
    console_error, console_message, console_message_impl, handle_diagnostic_event,
    handle_python_event, output_bytes, reverse_continue_commands, step_back_commands,
    CommandResult, CommandScript, ConsoleBuffer, PythonEvent, ScriptEvent,
    CONSOLE_BUFFER_SIZE,
};
use debug_session::error::Blame;
use debug_session::protocol::Event;
use debug_session::session::{Action, DebugSession};

fn output(e: &Event) -> (Option<String>, String) {
    match e {
        Event::Output { category, output } => (category.clone(), output.clone()),
        _ => panic!("not output: {:?}", e),
    }
}

fn of(category: &str, text: &str) -> (Option<String>, String) {
    (Some(category.to_string()), text.to_string())
}

#[test]
fn messages_are_lines() {
    assert_eq!(output(&console_message("hello")), of("console", "hello\n"));
    assert_eq!(output(&console_error("oops")), of("stderr", "oops\n"));
    assert_eq!(output(&console_message_impl(None, "x")), (None, "x\n".to_string()));
}

#[test]
fn invalid_bytes_are_replaced() {
    assert_eq!(output(&output_bytes("stdout", b"abc")), of("stdout", "abc"));
    assert_eq!(output(&output_bytes("stdout", b"a\xffb")), of("stdout", "a\u{fffd}b"));
    assert_eq!(output(&output_bytes("stdout", "\u{20ac}".as_bytes())), of("stdout", "\u{20ac}"));
}

#[test]
fn complete_lines_are_shown() {
    let mut b = ConsoleBuffer::new();
    assert!(b.write(b"one").is_none());
    assert_eq!(output(&b.write(b" two\nthree\nfo").unwrap()), of("console", "one two\nthree\n"));
    assert!(b.write(b"ur").is_none());
    assert_eq!(output(&b.write(b"\n").unwrap()), of("console", "four\n"));
    assert!(b.write(b"").is_none());
}

#[test]
fn long_lines_are_shown_in_pieces() {
    let mut b = ConsoleBuffer::new();
    let piece = vec![b'x'; 600];
    assert!(b.write(&piece).is_none());
    assert_eq!(output(&b.write(&piece).unwrap()).1.len(), 600);
    assert_eq!(b.pending.len(), 600);
    let full = vec![b'y'; CONSOLE_BUFFER_SIZE];
    let shown = output(&b.write(&full).unwrap()).1;
    assert_eq!(shown.len(), 600 + CONSOLE_BUFFER_SIZE);
    assert!(b.pending.is_empty());
}

#[test]
fn a_buffer_that_is_just_full_is_kept() {
    let mut b = ConsoleBuffer::new();
    assert!(b.write(&vec![b'x'; 1000]).is_none());
    assert!(b.write(&vec![b'y'; 24]).is_none());
    assert_eq!(b.pending.len(), CONSOLE_BUFFER_SIZE);
}

#[test]
fn no_byte_is_lost() {
    let text: Vec<u8> = (0..5000u32).map(|i| if i % 37 == 0 { b'\n' } else { b'a' }).collect();
    for size in [1usize, 7, 100, 1024] {
        let mut b = ConsoleBuffer::new();
        let mut shown = String::new();
        for piece in text.chunks(size) {
            if let Some(e) = b.write(piece) {
                shown.push_str(&output(&e).1);
            }
        }
        shown.push_str(&String::from_utf8_lossy(&b.pending));
        assert_eq!(shown.as_bytes(), &text[..]);
    }
}

fn done(succeeded: bool, output: &str, error: &str) -> CommandResult {
    CommandResult { succeeded, output: output.to_string(), error: error.to_string() }
}

#[test]
fn user_scripts_show_their_output() {
    let (mut script, started) = CommandScript::exec_commands(
        "initCommands",
        vec!["a".to_string(), "b".to_string()],
    );
    assert_eq!(output(&started), of("console", "Executing script: initCommands\n"));
    assert_eq!(script.next_command(), Some("a".to_string()));
    let events = script.command_done(&done(true, "fine", ""));
    assert_eq!(events.len(), 1);
    assert_eq!(output(&events[0]), of("console", "fine\n"));
    assert_eq!(script.next_command(), Some("b".to_string()));
    assert!(script.command_done(&done(true, "", "")).is_empty());
    assert_eq!(script.next_command(), None);
    let (actions, result) = script.script_ended();
    assert!(actions.len() == 1 && matches!(actions[0], Action::SetAsyncMode));
    assert!(result.is_ok());
}

#[test]
fn user_scripts_end_at_a_failure() {
    let (mut script, _) = CommandScript::exec_commands(
        "exitCommands",
        vec!["a".to_string(), "b".to_string()],
    );
    let events = script.command_done(&done(false, "part", "bad"));
    assert_eq!(events.len(), 2);
    assert_eq!(output(&events[0]), of("console", "part\n"));
    assert_eq!(output(&events[1]), of("stderr", "bad\n"));
    assert_eq!(script.next_command(), None);
    let (actions, result) = script.script_ended();
    assert!(actions.len() == 1 && matches!(actions[0], Action::SetAsyncMode));
    let error = result.unwrap_err();
    assert_eq!((error.blame, error.message.as_str()), (Blame::User, "bad"));
}

#[test]
fn scripts_without_commands_succeed() {
    let (script, _) = CommandScript::exec_commands("initCommands", vec![]);
    assert_eq!(script.next_command(), None);
    assert!(script.script_ended().1.is_ok());
}

#[test]
fn reverse_scripts_show_errors_only() {
    let mut script = CommandScript::reverse_exec(step_back_commands(255));
    assert!(script.command_done(&done(true, "noise", "")).is_empty());
    let events = script.command_done(&done(false, "noise", "no"));
    assert_eq!(events.len(), 1);
    assert_eq!(output(&events[0]), of("stderr", "no\n"));
    assert_eq!(script.next_command(), None);
    let (actions, result) = script.script_ended();
    assert!(actions.is_empty());
    assert_eq!(result.unwrap_err().blame, Blame::Internal);
}

#[test]
fn text_is_cut_between_characters() {
    let mut b = ConsoleBuffer::new();
    let text = "\u{20ac}\n\u{e9}";
    let shown = b.write(text.as_bytes()).unwrap();
    assert_eq!(output(&shown), of("console", "\u{20ac}\n"));
    assert_eq!(b.pending, "\u{e9}".as_bytes());
}

#[test]
fn reverse_commands_select_the_thread() {
    assert_eq!(
        step_back_commands(255),
        vec![
            "process plugin packet send Hcff",
            "process plugin packet send bs",
            "process plugin packet send bs",
            "stepi",
        ]
    );
    assert_eq!(
        reverse_continue_commands(-1),
        vec![
            "process plugin packet send Hcffffffffffffffff",
            "process plugin packet send bc",
            "process plugin packet send bs",
            "stepi",
        ]
    );
}

#[test]
fn script_events_are_sent_on() {
    let shown: PythonEvent<u8> = PythonEvent::DebuggerMessage {
        output: "hi".to_string(),
        category: "important".to_string(),
    };
    match handle_python_event(shown) {
        ScriptEvent::Message(e) => assert_eq!(output(&e), of("important", "hi\n")),
        ScriptEvent::Own(own) => panic!("{:?}", own),
    }
    let own = handle_python_event(PythonEvent::SendDapEvent("custom"));
    assert!(matches!(own, ScriptEvent::Own("custom")));
}

#[test]
fn client_messages_go_to_scripts_as_json() {
    let mut map = serde_json::Map::new();
    map.insert("a".to_string(), serde_json::Value::from(1));
    let value = serde_json::Value::Object(map);
    let with = DebugSession::new(true);
    assert_eq!(with.handle_python_message(&value), Some("{\"a\":1}".to_string()));
    let without = DebugSession::new(false);
    assert_eq!(without.handle_python_message(&value), None);
}

#[test]
fn diagnostics_are_shown() {
    let e = handle_diagnostic_event("warning", "odd");
    assert_eq!(output(&e), of("console", "warning: odd\n"));
}
