use debug_session::protocol::{CapabilityFlags, Event, ExceptionBreakpointsFilter};
use debug_session::session::{
    get_exception_filters_for, Action, AdapterSettings, BreakpointMode, ConsoleMode, DebugSession,
    DisplayFormat, Expressions, Format, InitializeRequestArguments, ShowDisassembly,
};

fn filters() -> Vec<ExceptionBreakpointsFilter> {
    ["cpp_throw", "cpp_catch", "rust_panic", "swift"]
        .iter()
        .map(|name| ExceptionBreakpointsFilter {
            filter: name.to_string(),
            label: format!("on {}", name),
            default_: Some(true),
            supports_condition: None,
        })
        .collect()
}

fn names(filters: &Vec<ExceptionBreakpointsFilter>) -> Vec<&str> {
    filters.iter().map(|f| f.filter.as_str()).collect()
}

fn no_settings() -> AdapterSettings {
    AdapterSettings {
        display_format: None,
        show_disassembly: None,
        dereference_pointers: None,
        suppress_missing_source_files: None,
        evaluation_timeout_ms: None,
        summary_timeout_ms: None,
        console_mode: None,
        evaluate_for_hovers: None,
        command_completions: None,
        source_languages: None,
    }
}

fn strings(v: &[&str]) -> Vec<String> {
    v.iter().map(|s| s.to_string()).collect()
}

#[test]
fn sessions_start_with_defaults() {
    let s = DebugSession::new(true);
    assert!(s.python_attached);
    assert!(!s.no_debug && !s.terminate_on_disconnect && !s.selected_frame_changed);
    assert_eq!(s.default_expr_type, Expressions::Simple);
    assert_eq!(s.global_format, Format::Default);
    assert_eq!(s.show_disassembly, ShowDisassembly::Auto);
    assert_eq!(s.console_mode, ConsoleMode::Commands);
    assert_eq!(s.breakpoint_mode, BreakpointMode::Path);
    assert!(s.deref_pointers && s.suppress_missing_files);
    assert!(s.evaluate_for_hovers && s.command_completions);
    assert_eq!(s.evaluation_timeout_ms, 5000);
    assert_eq!(s.summary_timeout_ms, 10);
    assert_eq!(s.max_summary_length, 32);
    assert_eq!(s.max_instr_bytes, 9);
    assert_eq!(s.source_languages, strings(&["cpp"]));
}

#[test]
fn filters_belong_to_languages() {
    let all = filters();
    let cpp = get_exception_filters_for(&all, &strings(&["cpp"]));
    assert_eq!(names(&cpp), vec!["cpp_throw", "cpp_catch"]);
    assert_eq!(cpp[0].label, "on cpp_throw");
    assert_eq!(cpp[0].default_, Some(true));
    let two = get_exception_filters_for(&all, &strings(&["rust", "swift", "c"]));
    assert_eq!(names(&two), vec!["rust_panic", "swift"]);
    assert!(get_exception_filters_for(&all, &vec![]).is_empty());
}

#[test]
fn clients_are_told_the_capabilities() {
    let mut s = DebugSession::new(false);
    s.evaluate_for_hovers = false;
    let args = InitializeRequestArguments { supports_invalidated_event: Some(true) };
    let caps = s.handle_initialize(args, &filters(), false);
    assert_eq!(s.client_caps, Some(args));
    assert_eq!(
        names(caps.exception_breakpoint_filters.as_ref().unwrap()),
        vec!["cpp_throw", "cpp_catch"]
    );
    assert_eq!(caps.flags.supports_evaluate_for_hovers, Some(false));
    assert_eq!(caps.flags.supports_completions_request, Some(true));
    assert_eq!(caps.flags.supports_step_in_targets_request, Some(false));
    assert_eq!(caps.flags.supports_data_breakpoints, Some(true));
    assert_eq!(caps.flags.supports_write_memory_request, Some(true));
    assert_eq!(
        s.make_capabilities(&filters(), true).flags.supports_step_in_targets_request,
        Some(true)
    );
}

#[test]
fn settings_are_taken_over() {
    let mut s = DebugSession::new(false);
    let settings = AdapterSettings {
        display_format: Some(DisplayFormat::Hex),
        show_disassembly: Some(ShowDisassembly::Never),
        dereference_pointers: Some(false),
        suppress_missing_source_files: Some(false),
        evaluation_timeout_ms: Some(100),
        summary_timeout_ms: Some(200),
        console_mode: Some(ConsoleMode::Split),
        evaluate_for_hovers: Some(false),
        command_completions: Some(true),
        source_languages: Some(strings(&["rust"])),
    };
    let caps = s.update_adapter_settings(&settings, &filters());
    assert_eq!(s.global_format, Format::Hex);
    assert_eq!(s.show_disassembly, ShowDisassembly::Never);
    assert!(!s.deref_pointers && !s.suppress_missing_files);
    assert_eq!((s.evaluation_timeout_ms, s.summary_timeout_ms), (100, 200));
    assert_eq!(s.console_mode, ConsoleMode::Split);
    assert_eq!(s.source_languages, strings(&["rust"]));
    assert_eq!(caps.flags.supports_evaluate_for_hovers, Some(false));
    assert_eq!(caps.flags.supports_completions_request, None);
    assert_eq!(caps.flags.supports_cancel_request, None);
    assert_eq!(names(&caps.exception_breakpoint_filters.unwrap()), vec!["rust_panic"]);
    // A second time, nothing is left to change.
    assert!(s.update_adapter_settings_and_caps(&settings, &filters()).is_none());
}

#[test]
fn every_display_format_has_a_format() {
    for (wanted, format) in [
        (DisplayFormat::Auto, Format::Default),
        (DisplayFormat::Decimal, Format::Decimal),
        (DisplayFormat::Hex, Format::Hex),
        (DisplayFormat::Binary, Format::Binary),
    ] {
        let mut s = DebugSession::new(false);
        s.global_format = Format::Hex;
        s.update_adapter_settings(
            &AdapterSettings { display_format: Some(wanted), ..no_settings() },
            &filters(),
        );
        assert_eq!(s.global_format, format);
    }
}

#[test]
fn missing_settings_change_nothing() {
    let mut s = DebugSession::new(false);
    let before = format!("{:?}", s);
    let caps = s.update_adapter_settings(&no_settings(), &filters());
    assert_eq!(format!("{:?}", s), before);
    assert!(caps.exception_breakpoint_filters.is_none());
    assert_eq!(caps.flags, CapabilityFlags::none());
}

#[test]
fn changed_capabilities_are_sent() {
    let mut s = DebugSession::new(false);
    let settings = AdapterSettings { command_completions: Some(false), ..no_settings() };
    match s.update_adapter_settings_and_caps(&settings, &filters()) {
        Some(Event::Capabilities(caps)) => {
            assert_eq!(caps.flags.supports_completions_request, Some(false));
            assert!(caps.exception_breakpoint_filters.is_none());
        }
        e => panic!("{:?}", e),
    }
}

#[test]
fn settings_lead_to_actions_in_order() {
    let mut s = DebugSession::new(true);
    s.client_caps = Some(InitializeRequestArguments { supports_invalidated_event: Some(true) });
    let settings = AdapterSettings {
        console_mode: Some(ConsoleMode::Evaluate),
        evaluate_for_hovers: Some(false),
        ..no_settings()
    };
    let actions = s.handle_adapter_settings(&settings, &filters(), false, 31);
    assert_eq!(actions.len(), 5);
    assert!(matches!(actions[0], Action::ForwardSettings));
    assert!(matches!(actions[1], Action::Send(Event::Capabilities(_))));
    assert!(matches!(actions[2], Action::PrintConsoleMode));
    assert!(matches!(actions[3], Action::Send(Event::Invalidated { thread_id: Some(31) })));
    match &actions[4] {
        Action::Send(Event::Stopped(body)) => {
            assert_eq!(body.thread_id, Some(31));
            assert_eq!(body.all_threads_stopped, Some(true));
            assert_eq!(body.reason, "");
        }
        a => panic!("{:?}", a),
    }
}

#[test]
fn settings_leave_a_running_debuggee_alone() {
    let mut s = DebugSession::new(false);
    assert!(s.handle_adapter_settings(&no_settings(), &filters(), true, 31).is_empty());
}

#[test]
fn refreshing_depends_on_the_client() {
    let mut s = DebugSession::new(false);
    for (supports, count) in [(None, 1), (Some(false), 1), (Some(true), 2)] {
        s.client_caps = Some(InitializeRequestArguments { supports_invalidated_event: supports });
        assert_eq!(s.refresh_client_display(None, 4).len(), count);
    }
    match s.refresh_client_display(Some(6), 4).pop() {
        Some(Event::Stopped(body)) => assert_eq!(body.thread_id, Some(6)),
        e => panic!("{:?}", e),
    }
}

#[test]
fn reordered_languages_change_no_capability() {
    let mut s = DebugSession::new(false);
    s.source_languages = strings(&["cpp", "rust"]);
    let settings =
        AdapterSettings { source_languages: Some(strings(&["rust", "cpp"])), ..no_settings() };
    let caps = s.update_adapter_settings(&settings, &filters());
    assert!(caps.exception_breakpoint_filters.is_none());
    assert_eq!(caps.flags, CapabilityFlags::none());
    assert_eq!(s.source_languages, strings(&["rust", "cpp"]));
    s.source_languages = strings(&["cpp", "rust"]);
    assert!(s.update_adapter_settings_and_caps(&settings, &filters()).is_none());
    s.source_languages = strings(&["cpp", "rust"]);
    assert!(s.handle_adapter_settings(&settings, &filters(), true, 31).is_empty());
}

#[test]
fn languages_without_filters_change_no_capability() {
    let mut s = DebugSession::new(false);
    let settings =
        AdapterSettings { source_languages: Some(strings(&["cpp", "ada"])), ..no_settings() };
    assert!(s.update_adapter_settings_and_caps(&settings, &filters()).is_none());
    assert_eq!(s.source_languages, strings(&["cpp", "ada"]));
    let none = AdapterSettings { source_languages: Some(vec![]), ..no_settings() };
    let caps = s.update_adapter_settings(&none, &filters());
    assert!(caps.exception_breakpoint_filters.unwrap().is_empty());
}

#[test]
fn settings_are_forwarded_to_scripts() {
    assert!(DebugSession::new(true).forwards_settings());
    assert!(!DebugSession::new(false).forwards_settings());
}
