use debug_session::error::{blame_nobody, blame_user, str_error, Blame};
use debug_session::request::{
    configuration_answered, handler_answered, make_response, response_body, Answer, Command, HandlerOutcome, HandlerResult,
    RequestStart, ResponseBody, ResponseResult, Route,
};
use debug_session::session::{Action, DebugSession};

const ALWAYS_SERVED: [Command; 7] = [
    Command::AdapterSettings,
    Command::Initialize,
    Command::Launch,
    Command::Attach,
    Command::Restart,
    Command::ConfigurationDone,
    Command::Disconnect,
];

const SERVED_WHEN_DEBUGGING: [Command; 34] = [
    Command::SetBreakpoints,
    Command::SetInstructionBreakpoints,
    Command::SetFunctionBreakpoints,
    Command::SetExceptionBreakpoints,
    Command::ExceptionInfo,
    Command::Threads,
    Command::StackTrace,
    Command::Scopes,
    Command::Variables,
    Command::Evaluate,
    Command::SetVariable,
    Command::Pause,
    Command::Continue,
    Command::Next,
    Command::StepInTargets,
    Command::StepIn,
    Command::StepOut,
    Command::StepBack,
    Command::ReverseContinue,
    Command::Source,
    Command::Modules,
    Command::Completions,
    Command::GotoTargets,
    Command::Goto,
    Command::RestartFrame,
    Command::DataBreakpointInfo,
    Command::SetDataBreakpoints,
    Command::Disassemble,
    Command::ReadMemory,
    Command::WriteMemory,
    Command::Symbols,
    Command::ExcludeCaller,
    Command::SetExcludedCallers,
    Command::PythonMessage,
];

fn error_of<B>(result: ResponseResult<B>) -> (String, String, Option<bool>) {
    match result {
        ResponseResult::Error { command, message, show_user } => (command, message, show_user),
        ResponseResult::Success { .. } => panic!("a success"),
    }
}

#[test]
fn requests_become_current() {
    let mut s = DebugSession::new(false);
    assert!(matches!(s.handle_request(5, Command::Threads, false), RequestStart::Run));
    assert_eq!(s.current_cancellation, Some(5));
    assert_eq!(s.request_handled(HandlerResult::Finished), Answer::Now);
    assert_eq!(s.current_cancellation, None);
    s.handle_request(6, Command::Threads, false);
    assert_eq!(s.request_handled(HandlerResult::Deferred), Answer::WhenDone);
}

#[test]
fn cancelled_requests_do_not_run() {
    let mut s = DebugSession::new(true);
    match s.handle_request(5, Command::Unknown, true) {
        RequestStart::Refuse(e) => {
            let response = make_response::<()>(5, Err(e));
            assert_eq!(response.request_seq, 5);
            assert!(!response.success);
            assert_eq!(
                error_of(response.result),
                (String::new(), "Internal debugger error: canceled".to_string(), Some(true))
            );
        }
        RequestStart::Run => panic!("it runs"),
    }
    assert_eq!(s.current_cancellation, None);
    assert!(!s.interrupts_scripts(true));
    assert!(s.interrupts_scripts(false));
    assert!(!DebugSession::new(false).interrupts_scripts(false));
}

#[test]
fn unknown_requests_are_refused() {
    let mut s = DebugSession::new(false);
    match s.handle_request(5, Command::Unknown, false) {
        RequestStart::Refuse(e) => assert_eq!(e.message, "Not implemented."),
        RequestStart::Run => panic!("it runs"),
    }
    // The cancellation of a refused request stays until the next one.
    assert_eq!(s.current_cancellation, Some(5));
}

#[test]
fn requests_go_to_their_handlers() {
    let mut s = DebugSession::new(false);
    for no_debug in [false, true] {
        s.no_debug = no_debug;
        for command in ALWAYS_SERVED {
            let route = s.handle_request_args(command, true).unwrap();
            let own = matches!(command, Command::Launch | Command::Attach);
            assert_eq!(
                route,
                if own { Route::HandleOwnBody(command) } else { Route::Handle(command) }
            );
        }
    }
    s.no_debug = false;
    for command in SERVED_WHEN_DEBUGGING {
        let route = s.handle_request_args(command, true).unwrap();
        let own = matches!(command, Command::Evaluate);
        assert_eq!(
            route,
            if own { Route::HandleOwnBody(command) } else { Route::Handle(command) }
        );
    }
}

#[test]
fn only_running_allows_few_requests() {
    let mut s = DebugSession::new(false);
    s.no_debug = true;
    for command in SERVED_WHEN_DEBUGGING {
        let e = s.handle_request_args(command, true).unwrap_err();
        assert_eq!((e.blame, e.message.as_str()), (Blame::Internal, "Not supported in noDebug mode."));
    }
    let e = s.handle_request_args(Command::Terminate, true).unwrap_err();
    assert_eq!(e.message, "Not supported in noDebug mode.");
}

#[test]
fn some_requests_are_not_implemented() {
    let s = DebugSession::new(false);
    for command in [Command::Terminate, Command::Cancel, Command::Unknown] {
        let e = s.handle_request_args(command, true).unwrap_err();
        assert_eq!((e.blame, e.message.as_str()), (Blame::Internal, "Not implemented."));
    }
}

#[test]
fn bad_configurations_are_reported() {
    let s = DebugSession::new(false);
    for command in [Command::Launch, Command::Attach, Command::Restart] {
        assert_eq!(
            s.handle_request_args(command, false).unwrap(),
            Route::ReportConfigurationError(command)
        );
    }
}

#[test]
fn configuration_waits_for_launches() {
    let (actions, left) = DebugSession::new(false).handle_configuration_done();
    assert!(actions.len() == 1 && matches!(actions[0], Action::SignalConfigurationDone));
    assert_eq!(left, HandlerResult::Deferred);
    assert!(configuration_answered::<u8>(2).is_none());
    assert!(matches!(
        configuration_answered::<u8>(0),
        Some(ResponseBody::Of { command: Command::ConfigurationDone, value: None })
    ));
}

#[test]
fn successes_carry_their_body() {
    let r = make_response(9, Ok("body"));
    assert_eq!(r.request_seq, 9);
    assert!(r.success);
    assert!(matches!(r.result, ResponseResult::Success { body: "body" }));
}

#[test]
fn blame_decides_what_the_user_sees() {
    let r = make_response::<()>(1, Err(str_error("x")));
    assert_eq!(error_of(r.result).1, "Internal debugger error: x");
    let r = make_response::<()>(1, Err(blame_user(str_error("x"))));
    assert_eq!(error_of(r.result), (String::new(), "x".to_string(), Some(true)));
    let r = make_response::<()>(1, Err(blame_nobody(str_error("x"))));
    assert_eq!(error_of(r.result), (String::new(), "x".to_string(), Some(false)));
}

#[test]
fn answers_hold_what_handlers_gave() {
    let s = DebugSession::new(false);
    let route = s.handle_request_args(Command::Threads, true).unwrap();
    let answer = handler_answered::<_, ()>(route, HandlerOutcome::Finished(Ok(7)));
    assert!(matches!(
        answer,
        HandlerOutcome::Finished(Ok(ResponseBody::Of { command: Command::Threads, value: Some(7) }))
    ));
    let route = s.handle_request_args(Command::Pause, true).unwrap();
    assert!(matches!(
        response_body(route, 7),
        ResponseBody::Of { command: Command::Pause, value: None }
    ));
    for command in [Command::Launch, Command::Attach, Command::Evaluate] {
        let route = s.handle_request_args(command, true).unwrap();
        assert!(matches!(response_body(route, 7), ResponseBody::Own(7)));
    }
    let route = s.handle_request_args(Command::Restart, false).unwrap();
    assert!(matches!(response_body(route, 7), ResponseBody::Own(7)));
}

#[test]
fn errors_and_work_are_handed_on() {
    let route = Route::Handle(Command::Threads);
    match handler_answered::<(), ()>(route, HandlerOutcome::Finished(Err(blame_nobody(str_error("x"))))) {
        HandlerOutcome::Finished(Err(e)) => {
            assert_eq!((e.blame, e.message.as_str()), (Blame::Nobody, "x"));
        }
        r => panic!("{:?}", r),
    }
    assert!(matches!(
        handler_answered::<(), _>(route, HandlerOutcome::Deferred("later")),
        HandlerOutcome::Deferred("later")
    ));
}
