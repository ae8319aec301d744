//! Requests: which handler serves them, when they are refused, and how they are answered.
use vstd::prelude::*;

use crate::error::{says, str_error, Blame, Error};
use crate::session::{Action, ActionView, DebugSession};

verus! {

/// The commands of the requests that a client can send.
#[derive(Clone, Copy, Debug, PartialEq, Eq, Structural)]
pub enum Command {
    AdapterSettings,
    Initialize,
    Launch,
    Attach,
    Restart,
    ConfigurationDone,
    Disconnect,
    Terminate,
    Cancel,
    SetBreakpoints,
    SetInstructionBreakpoints,
    SetFunctionBreakpoints,
    SetExceptionBreakpoints,
    ExceptionInfo,
    Threads,
    StackTrace,
    Scopes,
    Variables,
    Evaluate,
    SetVariable,
    Pause,
    Continue,
    Next,
    StepInTargets,
    StepIn,
    StepOut,
    StepBack,
    ReverseContinue,
    Source,
    Modules,
    Completions,
    GotoTargets,
    Goto,
    RestartFrame,
    DataBreakpointInfo,
    SetDataBreakpoints,
    Disassemble,
    ReadMemory,
    WriteMemory,
    Symbols,
    ExcludeCaller,
    SetExcludedCallers,
    PythonMessage,
    Unknown,
}

/// What is done about a request that is not refused.
#[derive(Clone, Copy, Debug, PartialEq, Eq, Structural)]
pub enum Route {
    /// The handler runs, and its success is answered with the body of this command.
    Handle(Command),
    /// The handler runs, and gives the body of its answer itself.
    HandleOwnBody(Command),
    /// The arguments could not be understood: the reason is reported to the user.
    ReportConfigurationError(Command),
}

/// The requests that are served whether or not the debuggee is debugged.
pub open spec fn served_without_debugging(command: Command) -> bool {
    match command {
        Command::AdapterSettings
        | Command::Initialize
        | Command::Launch
        | Command::Attach
        | Command::Restart
        | Command::ConfigurationDone
        | Command::Disconnect => true,
        _ => false,
    }
}

/// The requests whose arguments come with the configuration that the user wrote.
pub open spec fn takes_configuration(command: Command) -> bool {
    match command {
        Command::Launch | Command::Attach | Command::Restart => true,
        _ => false,
    }
}

/// The requests that no handler serves.
pub open spec fn not_implemented(command: Command) -> bool {
    match command {
        Command::Terminate | Command::Cancel | Command::Unknown => true,
        _ => false,
    }
}

/// The requests whose handler gives the body of the answer itself.
pub open spec fn gives_own_body(command: Command) -> bool {
    match command {
        Command::Launch | Command::Attach | Command::Evaluate => true,
        _ => false,
    }
}

/// Where a request goes that is not refused.
pub open spec fn route_of(command: Command, well_formed: bool) -> Route {
    if takes_configuration(command) && !well_formed {
        Route::ReportConfigurationError(command)
    } else if gives_own_body(command) {
        Route::HandleOwnBody(command)
    } else {
        Route::Handle(command)
    }
}

/// What happens first to a request.
#[derive(Debug)]
pub enum RequestStart {
    /// It is answered with an error at once.
    Refuse(Error),
    /// It goes to its handler.
    Run,
}

/// Whether `r` is what happens first to a request. One that was cancelled before its turn is
/// answered as such, and one that is not known is refused.
pub open spec fn started(command: Command, cancelled: bool, r: RequestStart) -> bool {
    match r {
        RequestStart::Refuse(e) => {
            ||| cancelled && says(e, Blame::Internal, "canceled"@)
            ||| !cancelled && command == Command::Unknown && says(
                e,
                Blame::Internal,
                "Not implemented."@,
            )
        },
        RequestStart::Run => !cancelled && command != Command::Unknown,
    }
}

/// Whether `r` says where a request goes, or why it goes nowhere. `no_debug` tells that the
/// debuggee only runs.
pub open spec fn routed(
    no_debug: bool,
    command: Command,
    well_formed: bool,
    r: Result<Route, Error>,
) -> bool {
    match r {
        Ok(route) => {
            &&& served_without_debugging(command) || !no_debug && !not_implemented(command)
            &&& route == route_of(command, well_formed)
        },
        Err(e) => {
            &&& !served_without_debugging(command)
            &&& no_debug || not_implemented(command)
            &&& says(
                e,
                Blame::Internal,
                if no_debug {
                    "Not supported in noDebug mode."@
                } else {
                    "Not implemented."@
                },
            )
        },
    }
}

/// The requests whose answer holds nothing but the success itself.
pub open spec fn answers_without_value(command: Command) -> bool {
    match command {
        Command::AdapterSettings
        | Command::Restart
        | Command::ConfigurationDone
        | Command::Disconnect
        | Command::SetExceptionBreakpoints
        | Command::Pause
        | Command::Next
        | Command::StepIn
        | Command::StepOut
        | Command::StepBack
        | Command::ReverseContinue
        | Command::Goto
        | Command::RestartFrame
        | Command::SetExcludedCallers
        | Command::PythonMessage => true,
        _ => false,
    }
}

/// The body of an answer, where `V` is what handlers give.
#[derive(Debug)]
pub enum ResponseBody<V> {
    /// The body of this command, with what the handler gave where the body holds anything.
    Of { command: Command, value: Option<V> },
    /// The body that the handler gave itself.
    Own(V),
}

/// What came of a handler: its outcome, or work `W` that will yield the answer later.
#[derive(Debug)]
pub enum HandlerOutcome<V, W> {
    Finished(Result<V, Error>),
    Deferred(W),
}

/// The body of the answer to a request that went to `route`, where its handler gave `value`.
pub open spec fn body_of<V>(route: Route, value: V) -> ResponseBody<V> {
    match route {
        Route::Handle(command) => ResponseBody::Of {
            command,
            value: if answers_without_value(command) {
                None
            } else {
                Some(value)
            },
        },
        Route::HandleOwnBody(_) => ResponseBody::Own(value),
        Route::ReportConfigurationError(_) => ResponseBody::Own(value),
    }
}

/// What is answered to a request that went to `route`, given what came of its handler. An error and
/// work that is left are handed on as they are.
pub open spec fn answer_from<V, W>(route: Route, outcome: HandlerOutcome<V, W>) -> HandlerOutcome<
    ResponseBody<V>,
    W,
> {
    match outcome {
        HandlerOutcome::Finished(Ok(value)) => HandlerOutcome::Finished(Ok(body_of(route, value))),
        HandlerOutcome::Finished(Err(e)) => HandlerOutcome::Finished(Err(e)),
        HandlerOutcome::Deferred(work) => HandlerOutcome::Deferred(work),
    }
}

fn holds_no_value(command: Command) -> (r: bool)
    ensures
        r == answers_without_value(command),
{
    match command {
        Command::AdapterSettings
        | Command::Restart
        | Command::ConfigurationDone
        | Command::Disconnect
        | Command::SetExceptionBreakpoints
        | Command::Pause
        | Command::Next
        | Command::StepIn
        | Command::StepOut
        | Command::StepBack
        | Command::ReverseContinue
        | Command::Goto
        | Command::RestartFrame
        | Command::SetExcludedCallers
        | Command::PythonMessage => true,
        _ => false,
    }
}

/// The body of the answer to a request that went to `route`, where its handler gave `value`.
pub fn response_body<V>(route: Route, value: V) -> (body: ResponseBody<V>)
    ensures
        body == body_of(route, value),
{
    match route {
        Route::Handle(command) => {
            if holds_no_value(command) {
                ResponseBody::Of { command, value: None }
            } else {
                ResponseBody::Of { command, value: Some(value) }
            }
        },
        Route::HandleOwnBody(_) | Route::ReportConfigurationError(_) => ResponseBody::Own(value),
    }
}

/// What is answered to a request that went to `route`, given what came of its handler.
pub fn handler_answered<V, W>(route: Route, outcome: HandlerOutcome<V, W>) -> (r: HandlerOutcome<
    ResponseBody<V>,
    W,
>)
    ensures
        r == answer_from(route, outcome),
{
    match outcome {
        HandlerOutcome::Finished(Ok(value)) => HandlerOutcome::Finished(
            Ok(response_body(route, value)),
        ),
        HandlerOutcome::Finished(Err(e)) => HandlerOutcome::Finished(Err(e)),
        HandlerOutcome::Deferred(work) => HandlerOutcome::Deferred(work),
    }
}

/// How a handler left a request.
#[derive(Clone, Copy, Debug, PartialEq, Eq, Structural)]
pub enum HandlerResult {
    /// With its outcome.
    Finished,
    /// With work that will yield the outcome later.
    Deferred,
}

/// When a request is answered.
#[derive(Clone, Copy, Debug, PartialEq, Eq, Structural)]
pub enum Answer {
    Now,
    WhenDone,
}

/// The session `s` once it has taken up the request `seq`.
pub open spec fn session_at_start(s: DebugSession, seq: u32, cancelled: bool) -> DebugSession {
    DebugSession {
        current_cancellation: if cancelled {
            s.current_cancellation
        } else {
            Some(seq)
        },
        ..s
    }
}

/// The session `s` once it has left a request.
pub open spec fn session_at_end(s: DebugSession) -> DebugSession {
    DebugSession { current_cancellation: None, ..s }
}

/// Whether the cancellation of a request is also to interrupt a script that it runs.
pub open spec fn interrupts(s: DebugSession, cancelled: bool) -> bool {
    !cancelled && s.python_attached
}

/// When a request is answered.
pub open spec fn answer_time(result: HandlerResult) -> Answer {
    match result {
        HandlerResult::Finished => Answer::Now,
        HandlerResult::Deferred => Answer::WhenDone,
    }
}

/// Whether this is how a configuration that is done is taken up.
pub open spec fn configuration_taken_up(actions: Seq<ActionView>, left: HandlerResult) -> bool {
    actions == seq![ActionView::SignalConfigurationDone] && left == HandlerResult::Deferred
}

/// The answer to a configuration that is done, while `waiting` launches and attaches have not
/// finished.
pub open spec fn configuration_body<V>(waiting: usize) -> Option<ResponseBody<V>> {
    if waiting > 0 {
        None
    } else {
        Some(ResponseBody::Of { command: Command::ConfigurationDone, value: None })
    }
}

impl DebugSession {
    /// Takes up a request. Unless it was cancelled before its turn, its cancellation is the current
    /// one from now on.
    pub fn handle_request(&mut self, seq: u32, command: Command, cancelled: bool) -> (r:
        RequestStart)
        ensures
            *final(self) == session_at_start(*old(self), seq, cancelled),
            started(command, cancelled, r),
    {
        if cancelled {
            return RequestStart::Refuse(str_error("canceled"));
        }
        self.current_cancellation = Some(seq);
        match command {
            Command::Unknown => RequestStart::Refuse(str_error("Not implemented.")),
            _ => RequestStart::Run,
        }
    }

    /// Whether the cancellation of a request is also to interrupt a script that it runs.
    pub fn interrupts_scripts(&self, cancelled: bool) -> (r: bool)
        ensures
            r == interrupts(*self, cancelled),
    {
        !cancelled && self.python_attached
    }

    /// Leaves a request whose handler has run. No cancellation is current any more.
    pub fn request_handled(&mut self, result: HandlerResult) -> (r: Answer)
        ensures
            *final(self) == session_at_end(*old(self)),
            r == answer_time(result),
    {
        self.current_cancellation = None;
        match result {
            HandlerResult::Finished => Answer::Now,
            HandlerResult::Deferred => Answer::WhenDone,
        }
    }

    /// Where a request goes. `well_formed` tells whether its arguments were understood.
    pub fn handle_request_args(&self, command: Command, well_formed: bool) -> (r: Result<
        Route,
        Error,
    >)
        ensures
            routed(self.no_debug, command, well_formed, r),
    {
        match command {
            Command::Launch | Command::Attach => {
                if well_formed {
                    Ok(Route::HandleOwnBody(command))
                } else {
                    Ok(Route::ReportConfigurationError(command))
                }
            },
            Command::Restart => {
                if well_formed {
                    Ok(Route::Handle(command))
                } else {
                    Ok(Route::ReportConfigurationError(command))
                }
            },
            Command::AdapterSettings
            | Command::Initialize
            | Command::ConfigurationDone
            | Command::Disconnect => Ok(Route::Handle(command)),
            _ => {
                if self.no_debug {
                    Err(str_error("Not supported in noDebug mode."))
                } else {
                    match command {
                        Command::Evaluate => Ok(Route::HandleOwnBody(command)),
                        Command::SetBreakpoints
                        | Command::SetInstructionBreakpoints
                        | Command::SetFunctionBreakpoints
                        | Command::SetExceptionBreakpoints
                        | Command::ExceptionInfo
                        | Command::Threads
                        | Command::StackTrace
                        | Command::Scopes
                        | Command::Variables
                        | Command::SetVariable
                        | Command::Pause
                        | Command::Continue
                        | Command::Next
                        | Command::StepInTargets
                        | Command::StepIn
                        | Command::StepOut
                        | Command::StepBack
                        | Command::ReverseContinue
                        | Command::Source
                        | Command::Modules
                        | Command::Completions
                        | Command::GotoTargets
                        | Command::Goto
                        | Command::RestartFrame
                        | Command::DataBreakpointInfo
                        | Command::SetDataBreakpoints
                        | Command::Disassemble
                        | Command::ReadMemory
                        | Command::WriteMemory
                        | Command::Symbols
                        | Command::ExcludeCaller
                        | Command::SetExcludedCallers
                        | Command::PythonMessage => Ok(Route::Handle(command)),
                        _ => Err(str_error("Not implemented.")),
                    }
                }
            },
        }
    }

    /// Takes up that the configuration is done. Launches and attaches that wait for it are told
    /// first, and the answer is always left for later.
    pub fn handle_configuration_done(&self) -> (r: (Vec<Action>, HandlerResult))
        ensures
            configuration_taken_up(r.0.deep_view(), r.1),
    {
        let mut actions: Vec<Action> = Vec::new();
        actions.push(Action::SignalConfigurationDone);
        proof {
            assert(actions.deep_view() =~= seq![ActionView::SignalConfigurationDone]);
        }
        (actions, HandlerResult::Deferred)
    }
}

/// The answer to a configuration that is done: none while launches and attaches that waited for it,
/// `waiting` of them, have not finished.
pub fn configuration_answered<V>(waiting: usize) -> (r: Option<ResponseBody<V>>)
    ensures
        r == configuration_body::<V>(waiting),
{
    if waiting > 0 {
        None
    } else {
        Some(ResponseBody::Of { command: Command::ConfigurationDone, value: None })
    }
}

/// The outcome of a request, as it goes to the client.
#[derive(Debug)]
pub enum ResponseResult<B> {
    Success { body: B },
    Error { command: String, message: String, show_user: Option<bool> },
}

/// The answer to the request with the number `request_seq`.
#[derive(Debug)]
pub struct Response<B> {
    pub request_seq: u32,
    pub success: bool,
    pub result: ResponseResult<B>,
}

/// The message of an error, as it is shown.
pub open spec fn shown_message(e: Error) -> Seq<char> {
    match e.blame {
        Blame::Internal => "Internal debugger error: "@ + e.message@,
        Blame::User => e.message@,
        Blame::Nobody => e.message@,
    }
}

/// Whether `response` answers the request `seq` with the outcome `result`.
pub open spec fn answers<B>(seq: u32, result: Result<B, Error>, response: Response<B>) -> bool {
    &&& response.request_seq == seq
    &&& match result {
        Ok(body) => response.success && response.result == (ResponseResult::Success { body }),
        Err(e) => !response.success && (response.result matches ResponseResult::Error {
            command,
            message,
            show_user,
        } && {
            &&& command@ == ""@
            &&& message@ == shown_message(e)
            &&& show_user == Some(e.blame != Blame::Nobody)
        }),
    }
}

/// The answer to a request. An error that nobody is to blame for is not shown to the user.
pub fn make_response<B>(request_seq: u32, result: Result<B, Error>) -> (response: Response<B>)
    ensures
        answers(request_seq, result, response),
{
    match result {
        Ok(body) => Response {
            request_seq,
            success: true,
            result: ResponseResult::Success { body },
        },
        Err(e) => {
            let (message, show) = match e.blame {
                Blame::Internal => {
                    let mut message: String = "Internal debugger error: ".to_owned();
                    message.append(e.message.as_str());
                    (message, true)
                },
                Blame::User => (e.message, true),
                Blame::Nobody => (e.message, false),
            };
            Response {
                request_seq,
                success: false,
                result: ResponseResult::Error {
                    command: "".to_owned(),
                    message,
                    show_user: Some(show),
                },
            }
        },
    }
}

/// What is served without debugging is served with debugging too, in the same way.
pub proof fn law_debugging_only_adds_requests(
    command: Command,
    well_formed: bool,
    without: Result<Route, Error>,
    with: Result<Route, Error>,
)
    requires
        routed(true, command, well_formed, without),
        routed(false, command, well_formed, with),
    ensures
        without is Ok ==> with is Ok && with->Ok_0 == without->Ok_0,
{
}

/// A request goes to the handler of its own command, or nowhere.
pub proof fn law_requests_reach_their_own_handler(
    no_debug: bool,
    command: Command,
    well_formed: bool,
    r: Result<Route, Error>,
)
    requires
        routed(no_debug, command, well_formed, r),
    ensures
        r matches Ok(route) ==> match route {
            Route::Handle(c) => c == command,
            Route::HandleOwnBody(c) => c == command,
            Route::ReportConfigurationError(c) => c == command && !well_formed,
        },
{
}

/// A request that reached its handler is answered with the body of its own command, which holds
/// what the handler gave where it holds anything, or with the error of the handler as it is.
/// Launching, attaching and evaluating give their bodies themselves.
pub proof fn law_answers_belong_to_their_request<V, W>(
    no_debug: bool,
    command: Command,
    route: Route,
    outcome: HandlerOutcome<V, W>,
)
    requires
        routed(no_debug, command, true, Ok(route)),
        !gives_own_body(command),
    ensures
        match outcome {
            HandlerOutcome::Finished(Ok(value)) => answer_from(route, outcome)
                == HandlerOutcome::<ResponseBody<V>, W>::Finished(
                Ok(
                    ResponseBody::Of {
                        command,
                        value: if answers_without_value(command) {
                            None
                        } else {
                            Some(value)
                        },
                    },
                ),
            ),
            HandlerOutcome::Finished(Err(e)) => answer_from(route, outcome)
                == HandlerOutcome::<ResponseBody<V>, W>::Finished(Err(e)),
            HandlerOutcome::Deferred(work) => answer_from(route, outcome)
                == HandlerOutcome::<ResponseBody<V>, W>::Deferred(work),
        },
{
}

/// A request that was cancelled before its turn does not run. It is answered under its own number,
/// with a failure that says so and that the user sees.
pub proof fn law_cancelled_requests_are_answered<B>(
    seq: u32,
    command: Command,
    start: RequestStart,
    response: Response<B>,
)
    requires
        started(command, true, start),
        start matches RequestStart::Refuse(e) ==> answers(seq, Err::<B, Error>(e), response),
    ensures
        start is Refuse,
        response.request_seq == seq,
        !response.success,
        response.result matches ResponseResult::Error { message, show_user, .. } && message@
            == "Internal debugger error: "@ + "canceled"@ && show_user == Some(true),
{
}

/// A request that is served is answered with all that its handler gave, wherever the protocol has a
/// place for it: launching, attaching and evaluating with the body of the handler itself, the
/// requests that ask for something with what was asked for, and the others with the bare success.
pub proof fn law_what_handlers_give_is_answered<V, W>(
    no_debug: bool,
    command: Command,
    route: Route,
    value: V,
)
    requires
        routed(no_debug, command, true, Ok(route)),
    ensures
        ({
            let answer = answer_from(route, HandlerOutcome::<V, W>::Finished(Ok(value)));
            let body = answer->Finished_0->Ok_0;
            &&& answer is Finished
            &&& answer->Finished_0 is Ok
            &&& command == Command::Launch || command == Command::Attach || command
                == Command::Evaluate ==> body == ResponseBody::Own(value)
            &&& ({
                ||| command == Command::Initialize
                ||| command == Command::SetBreakpoints
                ||| command == Command::SetInstructionBreakpoints
                ||| command == Command::SetFunctionBreakpoints
                ||| command == Command::ExceptionInfo
                ||| command == Command::Threads
                ||| command == Command::StackTrace
                ||| command == Command::Scopes
                ||| command == Command::Variables
                ||| command == Command::SetVariable
                ||| command == Command::Continue
                ||| command == Command::StepInTargets
                ||| command == Command::Source
                ||| command == Command::Modules
                ||| command == Command::Completions
                ||| command == Command::GotoTargets
                ||| command == Command::DataBreakpointInfo
                ||| command == Command::SetDataBreakpoints
                ||| command == Command::Disassemble
                ||| command == Command::ReadMemory
                ||| command == Command::WriteMemory
                ||| command == Command::Symbols
                ||| command == Command::ExcludeCaller
            }) ==> body == (ResponseBody::Of {
                command,
                value: Some(value),
            })
            &&& ({
                ||| command == Command::AdapterSettings
                ||| command == Command::Restart
                ||| command == Command::ConfigurationDone
                ||| command == Command::Disconnect
                ||| command == Command::SetExceptionBreakpoints
                ||| command == Command::Pause
                ||| command == Command::Next
                ||| command == Command::StepIn
                ||| command == Command::StepOut
                ||| command == Command::StepBack
                ||| command == Command::ReverseContinue
                ||| command == Command::Goto
                ||| command == Command::RestartFrame
                ||| command == Command::SetExcludedCallers
                ||| command == Command::PythonMessage
            }) ==> body == (ResponseBody::Of {
                command,
                value: None::<V>,
            })
        }),
{
}

/// A handler's error, and work that it leaves, reach the answer as they are, wherever the request
/// went.
pub proof fn law_failures_and_work_are_handed_on<V, W>(route: Route, e: Error, work: W)
    ensures
        answer_from(route, HandlerOutcome::<V, W>::Finished(Err(e))) == HandlerOutcome::<
            ResponseBody<V>,
            W,
        >::Finished(Err(e)),
        answer_from(route, HandlerOutcome::<V, W>::Deferred(work)) == HandlerOutcome::<
            ResponseBody<V>,
            W,
        >::Deferred(work),
{
}

/// While the debuggee is debugged every request is served that the protocol answers. Where it only
/// runs, just those are that start, configure and end a session. What is not served is refused with
/// the reason.
pub proof fn law_requests_are_served_or_refused(
    no_debug: bool,
    command: Command,
    well_formed: bool,
    r: Result<Route, Error>,
)
    requires
        routed(no_debug, command, well_formed, r),
    ensures
        !no_debug ==> (r is Ok <==> command != Command::Terminate && command != Command::Cancel
            && command != Command::Unknown),
        no_debug ==> (r is Ok <==> command == Command::AdapterSettings || command
            == Command::Initialize || command == Command::Launch || command == Command::Attach
            || command == Command::Restart || command == Command::ConfigurationDone || command
            == Command::Disconnect),
        r matches Err(e) ==> {
            &&& e.blame == Blame::Internal
            &&& no_debug ==> e.message@ == "Not supported in noDebug mode."@
            &&& !no_debug ==> e.message@ == "Not implemented."@
        },
{
}

/// Arguments that were not understood matter for launching, attaching and restarting only. There
/// the reason is reported, and what the report gives is the answer.
pub proof fn law_bad_configurations_are_reported<V, W>(
    no_debug: bool,
    command: Command,
    well_formed: bool,
    route: Route,
    value: V,
)
    requires
        routed(no_debug, command, well_formed, Ok(route)),
    ensures
        route is ReportConfigurationError <==> !well_formed && (command == Command::Launch || command
            == Command::Attach || command == Command::Restart),
        route is ReportConfigurationError ==> answer_from(
            route,
            HandlerOutcome::<V, W>::Finished(Ok(value)),
        ) == HandlerOutcome::<ResponseBody<V>, W>::Finished(Ok(ResponseBody::Own(value))),
{
}

/// A request runs unless it was cancelled before its turn or is not known, and is then the current
/// one until it is left. Nothing else of the session changes.
pub proof fn law_requests_run_one_at_a_time(
    s: DebugSession,
    seq: u32,
    command: Command,
    cancelled: bool,
    start: RequestStart,
)
    requires
        started(command, cancelled, start),
    ensures
        start is Run <==> !cancelled && command != Command::Unknown,
        start matches RequestStart::Refuse(e) ==> {
            &&& e.blame == Blame::Internal
            &&& cancelled ==> e.message@ == "canceled"@
            &&& !cancelled ==> e.message@ == "Not implemented."@
        },
        start is Run ==> session_at_start(s, seq, cancelled).current_cancellation == Some(seq),
        cancelled ==> session_at_start(s, seq, cancelled) == s,
        session_at_end(session_at_start(s, seq, cancelled)) == (DebugSession {
            current_cancellation: None,
            ..s
        }),
{
}

/// Scripts are interrupted by the cancellation of every request that was not cancelled before, as
/// long as scripts run at all.
pub proof fn law_cancelling_interrupts_scripts(s: DebugSession)
    ensures
        interrupts(s, false) <==> s.python_attached,
        !interrupts(s, true),
{
}

/// A handler that finished is answered at once, and one that left work when that is done.
pub proof fn law_answers_wait_for_work_only(result: HandlerResult)
    ensures
        answer_time(result) == Answer::Now <==> result == HandlerResult::Finished,
{
}

/// A configuration that is done lets the launches that wait go on, and is answered later: as soon as
/// none of them is left, and not before.
pub proof fn law_configuration_is_answered_after_launches<V>(
    actions: Seq<ActionView>,
    left: HandlerResult,
    waiting: usize,
)
    requires
        configuration_taken_up(actions, left),
    ensures
        actions.len() == 1,
        actions[0] is SignalConfigurationDone,
        answer_time(left) == Answer::WhenDone,
        configuration_body::<V>(waiting) is Some <==> waiting == 0,
        configuration_body::<V>(0) == Some(
            body_of(Route::Handle(Command::ConfigurationDone), arbitrary::<V>()),
        ),
{
}

/// Every answer carries the number of its request. A success carries its body. A failure carries the
/// message, marked as internal where nobody else is to blame, and is kept from the user just where
/// nobody is.
pub proof fn law_answers_tell_what_came_of_a_request<B>(
    seq: u32,
    result: Result<B, Error>,
    response: Response<B>,
)
    requires
        answers(seq, result, response),
    ensures
        response.request_seq == seq,
        response.success <==> result is Ok,
        result matches Ok(body) ==> response.result == (ResponseResult::Success { body }),
        result matches Err(e) ==> (response.result matches ResponseResult::Error {
            command,
            message,
            show_user,
        } && {
            &&& command@.len() == 0
            &&& e.blame == Blame::Internal ==> message@ == "Internal debugger error: "@ + e.message@
            &&& e.blame == Blame::User || e.blame == Blame::Nobody ==> message@ == e.message@
            &&& show_user == Some(false) <==> e.blame == Blame::Nobody
            &&& show_user == Some(true) <==> e.blame != Blame::Nobody
        }),
{
    reveal_strlit("");
}

}
