//! Moving the point of execution, and running a frame anew.
use vstd::prelude::*;

use crate::error::{blame_user, says, str_error, Blame, Error};
use crate::protocol::{Event, EventView, Source, StoppedEventBody, StoppedEventView};
use crate::session::{refresh_events, Container, DebugSession};
use crate::stack::{thread_by_id, thread_missing};
use crate::text::{push_signed_decimal, signed_decimal};

verus! {

/// A line that execution may be moved to.
#[derive(Debug)]
pub struct GotoTargetsArguments {
    pub source: Source,
    pub line: i64,
}

/// A place that the client may choose.
#[derive(Debug)]
pub struct GotoTarget {
    pub id: i64,
    pub label: String,
    pub line: i64,
}

#[verifier::ext_equal]
pub struct GotoTargetView {
    pub id: i64,
    pub label: Seq<char>,
    pub line: i64,
}

impl DeepView for GotoTarget {
    type V = GotoTargetView;

    open spec fn deep_view(&self) -> GotoTargetView {
        GotoTargetView { id: self.id, label: self.label@, line: self.line }
    }
}

/// How the place that was asked for last is reached.
#[derive(Debug)]
pub enum GotoPlan {
    /// By the address of a line of the disassembly under a reference.
    Disassembly { source_reference: i64, line: u32 },
    /// By a line of a source file.
    SourceFile { path: String, line: u32 },
}

/// Whether `r` says how to reach the place that was asked for last, or why there is no way. The
/// order of the tests decides which reason is given.
pub open spec fn goto_planned(
    last: Option<GotoTargetsArguments>,
    found: bool,
    running: bool,
    r: Result<GotoPlan, Error>,
) -> bool {
    match last {
        None => r matches Err(e) && says(e, Blame::Internal, "Unexpected goto message."@),
        Some(target) => if !found {
            r matches Err(e) && thread_missing(running, e)
        } else {
            match (target.source.source_reference, target.source.path) {
                (Some(reference), _) => r matches Ok(plan) && plan == (GotoPlan::Disassembly {
                    source_reference: reference,
                    line: target.line as u32,
                }),
                (None, Some(wanted)) => r matches Ok(GotoPlan::SourceFile { path, line })
                    && path@ == wanted@ && line == target.line as u32,
                (None, None) => r matches Err(e) && says(e, Blame::Internal, "source.path"@),
            }
        },
    }
}

/// What came of moving execution to an address of a disassembly.
#[derive(Debug)]
pub enum AddressMove {
    /// The reference is no handle at all, as the message says.
    BadHandle(String),
    /// There is no disassembly under the reference.
    NoRange,
    /// The thread has no frame.
    NoFrame,
    /// The debugger refused.
    Refused,
    Moved,
}

/// Whether `e` is the answer to a move that failed.
pub open spec fn address_move_refused(outcome: AddressMove, e: Error) -> bool {
    match outcome {
        AddressMove::BadHandle(message) => says(e, Blame::Internal, message@),
        AddressMove::NoRange => says(e, Blame::Internal, "source_ref"@),
        AddressMove::NoFrame => says(e, Blame::Internal, "frame 0"@),
        AddressMove::Refused => says(
            e,
            Blame::User,
            "Failed to set the instruction pointer."@,
        ),
        AddressMove::Moved => false,
    }
}

/// The places that are offered for a line.
pub open spec fn offered_targets(args: GotoTargetsArguments) -> Seq<GotoTargetView> {
    seq![
        GotoTargetView {
            id: 1,
            label: "line "@ + signed_decimal(args.line as int),
            line: args.line,
        },
    ]
}

/// The session `s` once it has offered a line.
pub open spec fn after_offer(s: DebugSession, args: GotoTargetsArguments) -> DebugSession {
    DebugSession { last_goto_request: Some(args), ..s }
}

/// Whether `r` answers a move to an address.
pub open spec fn address_move_answered(
    s: DebugSession,
    thread_id: i64,
    outcome: AddressMove,
    r: Result<Vec<Event>, Error>,
) -> bool {
    match r {
        Ok(events) => {
            &&& outcome is Moved
            &&& events.deep_view() == refresh_events(s, thread_id as u64)
        },
        Err(e) => address_move_refused(outcome, e),
    }
}

/// Whether `r` answers a move to a line, and `after` is the session `s` afterwards.
pub open spec fn line_move_answered(
    s: DebugSession,
    thread_id: i64,
    outcome: Result<(), String>,
    after: DebugSession,
    r: Result<Vec<Event>, Error>,
) -> bool {
    match (outcome, r) {
        (Ok(()), Ok(events)) => {
            &&& after == (DebugSession { last_goto_request: None, ..s })
            &&& events.deep_view() == refresh_events(after, thread_id as u64)
        },
        (Err(message), Err(e)) => {
            &&& after == s
            &&& says(e, Blame::User, message@)
        },
        _ => false,
    }
}

impl DebugSession {
    /// Offers the line that the client asked about, and remembers it.
    pub fn handle_goto_targets(&mut self, args: GotoTargetsArguments) -> (targets: Vec<GotoTarget>)
        ensures
            *final(self) == after_offer(*old(self), args),
            targets.deep_view() == offered_targets(args),
    {
        let mut label: String = "line ".to_owned();
        push_signed_decimal(&mut label, args.line);
        let mut targets: Vec<GotoTarget> = Vec::new();
        targets.push(GotoTarget { id: 1, label, line: args.line });
        proof {
            assert(targets.deep_view() =~= offered_targets(args));
        }
        self.last_goto_request = Some(args);
        targets
    }

    /// Says how to reach the place that was asked for last. `found` tells whether the thread was
    /// found, and `running` whether the debuggee runs.
    pub fn handle_goto(&self, found: bool, running: bool) -> (r: Result<GotoPlan, Error>)
        ensures
            goto_planned(self.last_goto_request, found, running, r),
    {
        match &self.last_goto_request {
            None => Err(str_error("Unexpected goto message.")),
            Some(target) => {
                if let Err(e) = thread_by_id(found, running) {
                    return Err(e);
                }
                let line: u32 = #[verifier::truncate] (target.line as u32);
                match target.source.source_reference {
                    Some(source_reference) => Ok(GotoPlan::Disassembly { source_reference, line }),
                    None => match &target.source.path {
                        Some(path) => Ok(GotoPlan::SourceFile { path: path.clone(), line }),
                        None => Err(str_error("source.path")),
                    },
                }
            },
        }
    }

    /// Answers a move to an address. The client may ask for the same place again.
    pub fn address_moved(&self, thread_id: i64, outcome: AddressMove) -> (r: Result<
        Vec<Event>,
        Error,
    >)
        requires
            outcome is Moved ==> self.client_caps is Some,
        ensures
            address_move_answered(*self, thread_id, outcome, r),
    {
        match outcome {
            AddressMove::BadHandle(message) => Err(Error { blame: Blame::Internal, message }),
            AddressMove::NoRange => Err(str_error("source_ref")),
            AddressMove::NoFrame => Err(str_error("frame 0")),
            AddressMove::Refused => Err(
                blame_user(str_error("Failed to set the instruction pointer.")),
            ),
            AddressMove::Moved => {
                let thread: u64 = #[verifier::truncate] (thread_id as u64);
                Ok(self.refresh_client_display(Some(thread), thread))
            },
        }
    }

    /// Answers a move to a line of a source file. After one that succeeded the place is forgotten.
    pub fn line_moved(&mut self, thread_id: i64, outcome: Result<(), String>) -> (r: Result<
        Vec<Event>,
        Error,
    >)
        requires
            outcome is Ok ==> old(self).client_caps is Some,
        ensures
            line_move_answered(*old(self), thread_id, outcome, *final(self), r),
    {
        match outcome {
            Ok(()) => {
                self.last_goto_request = None;
                let thread: u64 = #[verifier::truncate] (thread_id as u64);
                Ok(self.refresh_client_display(Some(thread), thread))
            },
            Err(message) => Err(Error { blame: Blame::User, message }),
        }
    }
}

/// Whether `r` tells whether what a client calls a frame is one.
pub open spec fn frame_checked(container: Option<Container>, r: Result<(), Error>) -> bool {
    match r {
        Ok(()) => container == Some(Container::StackFrame),
        Err(e) => container != Some(Container::StackFrame) && says(
            e,
            Blame::Internal,
            "Invalid frameId"@,
        ),
    }
}

/// Checks that what a client calls a frame is one, so that it can be run anew.
pub fn handle_restart_frame(container: Option<Container>) -> (r: Result<(), Error>)
    ensures
        frame_checked(container, r),
{
    match container {
        Some(Container::StackFrame) => Ok(()),
        _ => Err(str_error("Invalid frameId")),
    }
}

/// Whether `r` answers that a frame of the thread is run anew.
pub open spec fn restart_answered(
    thread_id: u64,
    returned: Result<(), String>,
    r: Result<Event, Error>,
) -> bool {
    match (returned, r) {
        (Ok(()), Ok(event)) => event.deep_view() == EventView::Stopped(
            StoppedEventView {
                reason: "restart"@,
                description: None,
                thread_id: Some(thread_id as i64),
                all_threads_stopped: Some(true),
                preserve_focus_hint: None,
                hit_breakpoint_ids: None,
            },
        ),
        (Err(message), Err(e)) => says(e, Blame::Internal, message@),
        _ => false,
    }
}

/// Answers that a frame of the thread is run anew, given what came of leaving it.
pub fn frame_restarted(thread_id: u64, returned: Result<(), String>) -> (r: Result<Event, Error>)
    ensures
        restart_answered(thread_id, returned, r),
{
    match returned {
        Ok(()) => Ok(
            Event::Stopped(
                StoppedEventBody {
                    reason: "restart".to_owned(),
                    description: None,
                    thread_id: Some(#[verifier::truncate] (thread_id as i64)),
                    all_threads_stopped: Some(true),
                    preserve_focus_hint: None,
                    hit_breakpoint_ids: None,
                },
            ),
        ),
        Err(message) => Err(Error { blame: Blame::Internal, message }),
    }
}

/// A line that was offered is the line that execution moves to, as long as it is a line number of
/// the debugger.
pub proof fn law_offered_line_is_reached(
    args: GotoTargetsArguments,
    running: bool,
    r: Result<GotoPlan, Error>,
)
    requires
        goto_planned(Some(args), true, running, r),
        0 <= args.line <= u32::MAX,
        args.source.source_reference is Some || args.source.path is Some,
    ensures
        r matches Ok(plan) && match plan {
            GotoPlan::Disassembly { source_reference, line } => {
                &&& Some(source_reference) == args.source.source_reference
                &&& line == args.line
            },
            GotoPlan::SourceFile { path, line } => {
                &&& args.source.source_reference is None
                &&& Some(path@) == args.source.path.deep_view()
                &&& line == args.line
            },
        },
{
}

/// The line that the client asked about is offered under its own number, and is all that is offered.
/// It is remembered with its source, and nothing else of the session changes.
pub proof fn law_the_line_asked_about_is_offered(s: DebugSession, args: GotoTargetsArguments)
    ensures
        offered_targets(args).len() == 1,
        offered_targets(args)[0].line == args.line,
        offered_targets(args)[0].id == 1,
        offered_targets(args)[0].label == "line "@ + signed_decimal(args.line as int),
        after_offer(s, args).last_goto_request == Some(args),
        after_offer(s, args) == (DebugSession {
            last_goto_request: after_offer(s, args).last_goto_request,
            ..s
        }),
{
}

/// A move fails without a line to move to, then without its thread, then without a source, and for
/// no other reason. A line of a disassembly is reached by its reference even where there is a path.
pub proof fn law_moves_need_line_thread_and_source(
    last: Option<GotoTargetsArguments>,
    found: bool,
    running: bool,
    r: Result<GotoPlan, Error>,
)
    requires
        goto_planned(last, found, running, r),
    ensures
        r is Ok <==> last is Some && found && (last->0.source.source_reference is Some
            || last->0.source.path is Some),
        last is None ==> r->Err_0.blame == Blame::Internal && r->Err_0.message@
            == "Unexpected goto message."@,
        last is Some && !found && running ==> r->Err_0.blame == Blame::Nobody && r->Err_0.message@
            == "Not available while the process is running."@,
        last is Some && !found && !running ==> r->Err_0.blame == Blame::Internal
            && r->Err_0.message@ == "Invalid thread_id."@,
        last is Some && found && r is Err ==> r->Err_0.blame == Blame::Internal
            && r->Err_0.message@ == "source.path"@,
        r is Ok ==> (r->Ok_0 is Disassembly <==> last->0.source.source_reference is Some),
{
}

/// A move to an address is told as a stop of its thread just where it was made. Where it was not, the
/// reason is told, and only a refusal of the debugger is for the user.
pub proof fn law_address_moves_are_told(
    s: DebugSession,
    thread_id: i64,
    outcome: AddressMove,
    r: Result<Vec<Event>, Error>,
)
    requires
        address_move_answered(s, thread_id, outcome, r),
    ensures
        r is Ok <==> outcome is Moved,
        r matches Ok(events) ==> events.deep_view() == refresh_events(s, thread_id as u64),
        r matches Err(e) ==> {
            &&& e.blame == Blame::User <==> outcome is Refused
            &&& e.blame == Blame::Internal <==> !(outcome is Refused)
            &&& outcome matches AddressMove::BadHandle(message) ==> e.message@ == message@
            &&& outcome is NoRange ==> e.message@ == "source_ref"@
            &&& outcome is NoFrame ==> e.message@ == "frame 0"@
            &&& outcome is Refused ==> e.message@ == "Failed to set the instruction pointer."@
        },
{
}

/// A move to a line is told as a stop of its thread just where it was made, and the line is forgotten
/// then and only then. Where it was not made the user is told why.
pub proof fn law_line_moves_are_told(
    s: DebugSession,
    thread_id: i64,
    outcome: Result<(), String>,
    after: DebugSession,
    r: Result<Vec<Event>, Error>,
)
    requires
        line_move_answered(s, thread_id, outcome, after, r),
    ensures
        r is Ok <==> outcome is Ok,
        outcome is Ok ==> after.last_goto_request is None,
        outcome is Err ==> after == s,
        after == (DebugSession { last_goto_request: after.last_goto_request, ..s }),
        r matches Ok(events) ==> events.deep_view() == refresh_events(s, thread_id as u64),
        r matches Err(e) ==> e.blame == Blame::User && e.message@ == outcome->Err_0@,
{
}

/// Only a frame is run anew. That it is, is told as a stop of its thread for that reason, and where
/// it could not be left the reason is told.
pub proof fn law_frames_are_run_anew(
    container: Option<Container>,
    checked: Result<(), Error>,
    thread_id: u64,
    returned: Result<(), String>,
    r: Result<Event, Error>,
)
    requires
        frame_checked(container, checked),
        restart_answered(thread_id, returned, r),
    ensures
        checked is Ok <==> container == Some(Container::StackFrame),
        checked matches Err(e) ==> e.blame == Blame::Internal && e.message@ == "Invalid frameId"@,
        r is Ok <==> returned is Ok,
        r matches Err(e) ==> e.blame == Blame::Internal && e.message@ == returned->Err_0@,
        r matches Ok(event) ==> (event.deep_view() matches EventView::Stopped(body) && {
            &&& body.reason == "restart"@
            &&& body.description is None
            &&& body.all_threads_stopped == Some(true)
            &&& body.preserve_focus_hint is None
            &&& body.hit_breakpoint_ids is None
            &&& thread_id <= i64::MAX ==> body.thread_id is Some && body.thread_id->0 == thread_id
        }),
{
}

/// The view of a place has each of its parts, written as it is.
pub proof fn law_places_are_seen_as_they_are(target: GotoTarget)
    ensures
        target.deep_view().id == target.id,
        target.deep_view().label == target.label@,
        target.deep_view().line == target.line,
{
}

}
