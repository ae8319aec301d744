use debug_session::completions::{completions_found, CompletionQuery, CompletionsArguments};
use debug_session::error::Blame;
use debug_session::session::{ConsoleMode, DebugSession};

fn session(mode: ConsoleMode) -> DebugSession {
    let mut s = DebugSession::new(false);
    s.console_mode = mode;
    s
}

fn ask(mode: ConsoleMode, text: &str, column: i64) -> Option<CompletionQuery> {
    session(mode)
        .handle_completions(&CompletionsArguments { text: text.to_string(), column })
        .unwrap()
}

#[test]
fn commands_are_completed_at_the_cursor() {
    let q = ask(ConsoleMode::Commands, "set show tar", 13).unwrap();
    assert_eq!(q.text, "set show tar");
    assert_eq!(q.cursor, 12);
    assert_eq!(q.cursor_index, 12);
    let q = ask(ConsoleMode::Commands, "set show tar", 4).unwrap();
    assert_eq!((q.cursor, q.cursor_index), (3, 3));
}

#[test]
fn cursor_is_counted_in_bytes_for_the_debugger() {
    let q = ask(ConsoleMode::Commands, "p \u{e9}\u{20ac}x", 5).unwrap();
    assert_eq!(q.cursor, 4);
    assert_eq!(q.cursor_index, 7);
}

#[test]
fn cursor_outside_of_the_text_is_behind_it() {
    let q = ask(ConsoleMode::Commands, "abc", 100).unwrap();
    assert_eq!(q.cursor, 3);
    let q = ask(ConsoleMode::Commands, "abc", -5).unwrap();
    assert_eq!(q.cursor, 3);
}

#[test]
fn marked_commands_are_completed_in_other_modes() {
    for mode in [ConsoleMode::Evaluate, ConsoleMode::Split] {
        let q = ask(mode, "`help", 6).unwrap();
        assert_eq!((q.text.as_str(), q.cursor), ("help", 4));
        let q = ask(mode, "/cmd help", 8).unwrap();
        assert_eq!((q.text.as_str(), q.cursor), ("help", 2));
        assert!(ask(mode, "help", 5).is_none());
        assert!(ask(mode, "/cmdhelp", 5).is_none());
    }
}

#[test]
fn only_letters_start_a_command() {
    assert!(ask(ConsoleMode::Commands, "1abc", 2).is_none());
    assert!(ask(ConsoleMode::Commands, " abc", 2).is_none());
    assert!(ask(ConsoleMode::Commands, "_abc", 2).is_none());
    assert!(ask(ConsoleMode::Commands, "\u{e9}", 2).is_some());
    assert!(ask(ConsoleMode::Commands, "", 1).is_some());
}

#[test]
fn disabled_completions_are_an_error() {
    let mut s = session(ConsoleMode::Commands);
    s.command_completions = false;
    let e = s
        .handle_completions(&CompletionsArguments { text: "x".to_string(), column: i64::MIN })
        .unwrap_err();
    assert_eq!(e.message, "Completions are disabled");
    assert_eq!(e.blame, Blame::Internal);
}

#[test]
fn proposals_replace_what_was_typed() {
    let q = ask(ConsoleMode::Commands, "set show tar", 13).unwrap();
    let items = completions_found(
        &q,
        13,
        Some((
            "get.".to_string(),
            vec!["target.arg0".to_string(), "tarot".to_string(), "other".to_string()],
        )),
    );
    assert_eq!(items.len(), 3);
    assert_eq!(items[0].label, "target.arg0");
    assert_eq!((items[0].start, items[0].length), (Some(10), Some(3)));
    assert_eq!(items[1].label, "tarot");
    assert_eq!((items[1].start, items[1].length), (None, None));
    assert_eq!((items[2].start, items[2].length), (None, None));
}

#[test]
fn only_the_text_before_the_cursor_was_typed() {
    let q = ask(ConsoleMode::Commands, "he xyz", 3).unwrap();
    let items = completions_found(&q, 3, Some(("".to_string(), vec!["help".to_string()])));
    assert_eq!((items[0].start, items[0].length), (Some(1), Some(2)));
}

#[test]
fn no_answer_is_no_proposal() {
    let q = ask(ConsoleMode::Commands, "he", 3).unwrap();
    assert!(completions_found(&q, 3, None).is_empty());
}

#[test]
fn commands_stand_behind_their_mark() {
    assert_eq!(session(ConsoleMode::Commands).command_offset("`x"), Some(1));
    let s = session(ConsoleMode::Evaluate);
    assert_eq!(s.command_offset("`x"), Some(2));
    assert_eq!(s.command_offset("/cmd x"), Some(6));
    assert_eq!(s.command_offset("x"), None);
}
