//! Running and stopping the debuggee.
use vstd::prelude::*;

use crate::console::{
    reverse_continue_commands, reverse_continue_texts, script_fresh, step_back_commands,
    step_back_texts, CommandScript, ScriptKind,
};
use crate::data_breakpoints::{chosen_frame, FrameChoice};
use crate::error::{says, Blame, Error};
use crate::goto_requests::{goto_planned, GotoPlan};
use crate::session::{Action, ActionView, Container, DebugSession, ShowDisassembly};
use crate::stack::{
    shown_in_disassembly, thread_by_id, thread_checked, thread_missing, FrameLine,
};

verus! {

/// How far a step goes.
#[derive(Clone, Copy, Debug, PartialEq, Eq, Structural)]
pub enum SteppingGranularity {
    Statement,
    Line,
    Instruction,
}

/// What is left to do once the debuggee was told to stop or to go on.
#[derive(Clone, Copy, Debug, PartialEq, Eq, Structural)]
pub enum Notice {
    /// Nothing: the debugger will tell.
    Awaited,
    /// The client is told at once, since the debugger has told already or will not tell.
    Due,
}

/// Whether `r` is right for a command to the debuggee: one that failed is made up for where the
/// debuggee is in the state that was wanted, and else the user is told why it failed.
pub open spec fn commanded(
    done: Result<(), String>,
    as_wanted: bool,
    r: Result<Notice, Error>,
) -> bool {
    match done {
        Ok(()) => r matches Ok(n) && n == Notice::Awaited,
        Err(message) => if as_wanted {
            r matches Ok(n) && n == Notice::Due
        } else {
            r matches Err(e) && says(e, Blame::User, message@)
        },
    }
}

/// Whether `r` is right for a request to pause: a debuggee that does not run is as wanted.
pub open spec fn paused(
    stopped: Result<(), String>,
    running: bool,
    r: Result<Notice, Error>,
) -> bool {
    commanded(stopped, !running, r)
}

/// Answers a request to pause, given how the debuggee was stopped and whether it runs. Where it
/// does not run, the client may have missed that, and is told anew.
pub fn handle_pause(stopped: Result<(), String>, running: bool) -> (r: Result<Notice, Error>)
    ensures
        paused(stopped, running, r),
{
    match stopped {
        Ok(()) => Ok(Notice::Awaited),
        Err(message) => {
            if !running {
                Ok(Notice::Due)
            } else {
                Err(Error { blame: Blame::User, message })
            }
        },
    }
}

/// What a client is told about a request to continue.
#[derive(Clone, Copy, Debug, PartialEq, Eq, Structural)]
pub struct ContinueResponse {
    pub all_threads_continued: Option<bool>,
}

/// Whether `r` is right for a request to continue: as for any command to the debuggee, and a
/// success tells that all threads run.
pub open spec fn continued(
    resumed: Result<(), String>,
    running: bool,
    r: Result<(ContinueResponse, Notice), Error>,
) -> bool {
    match r {
        Ok((response, notice)) => {
            &&& commanded(resumed, running, Ok(notice))
            &&& response.all_threads_continued == Some(true)
        },
        Err(e) => commanded(resumed, running, Err(e)),
    }
}

/// Answers a request to continue, given how the debuggee was resumed and whether it runs. Where it
/// runs, the client may have missed that, and is told anew.
pub fn continue_answered(resumed: Result<(), String>, running: bool) -> (r: Result<
    (ContinueResponse, Notice),
    Error,
>)
    ensures
        continued(resumed, running, r),
{
    let response = ContinueResponse { all_threads_continued: Some(true) };
    match resumed {
        Ok(()) => Ok((response, Notice::Awaited)),
        Err(message) => {
            if running {
                Ok((response, Notice::Due))
            } else {
                Err(Error { blame: Blame::User, message })
            }
        },
    }
}

/// The session `s` once it has forgotten what is true only while the debuggee is stopped.
pub open spec fn ready_to_resume(s: DebugSession) -> DebugSession {
    DebugSession { selected_frame_changed: false, last_goto_request: None, ..s }
}

/// What is to be forgotten around the session at the same time.
pub open spec fn resume_actions() -> Seq<ActionView> {
    seq![ActionView::ResetVariables, ActionView::ClearStepInTargets]
}

/// Whether a step goes by instructions: if so wanted, or else where the frame is shown in
/// disassembly.
pub open spec fn steps_by_instruction(
    granularity: Option<SteppingGranularity>,
    show: ShowDisassembly,
    line: FrameLine,
) -> bool {
    match granularity {
        Some(SteppingGranularity::Instruction) => true,
        Some(_) => false,
        None => shown_in_disassembly(show, line),
    }
}

/// The session `s` once it is ready for a step back.
pub open spec fn ready_to_step_back(s: DebugSession) -> DebugSession {
    DebugSession { show_disassembly: ShowDisassembly::Always, ..ready_to_resume(s) }
}

/// Whether `r` tells whether the thread of a step over was found, and `after` is the session `s`
/// afterwards.
pub open spec fn next_readied(
    s: DebugSession,
    found: bool,
    running: bool,
    after: DebugSession,
    r: Result<Vec<Action>, Error>,
) -> bool {
    match r {
        Ok(actions) => {
            &&& found
            &&& after == ready_to_resume(s)
            &&& actions.deep_view() == resume_actions()
        },
        Err(e) => !found && thread_missing(running, e) && after == s,
    }
}

impl DebugSession {
    /// Gets ready to continue, before the debuggee is resumed.
    pub fn handle_continue(&mut self) -> (actions: Vec<Action>)
        ensures
            *final(self) == ready_to_resume(*old(self)),
            actions.deep_view() == resume_actions(),
    {
        self.before_resume()
    }

    /// Gets ready for a step over, if the thread was found. Nothing is forgotten if it was not.
    pub fn handle_next(&mut self, found: bool, running: bool) -> (r: Result<Vec<Action>, Error>)
        ensures
            next_readied(*old(self), found, running, *final(self), r),
    {
        match thread_by_id(found, running) {
            Ok(()) => Ok(self.before_resume()),
            Err(e) => Err(e),
        }
    }

    /// Whether to step by instructions. `line` is where the first frame stands, and does not matter
    /// where a granularity is given.
    pub fn step_instruction(&self, granularity: Option<SteppingGranularity>, line: &FrameLine) -> (r:
        bool)
        ensures
            r == steps_by_instruction(granularity, self.show_disassembly, *line),
    {
        match granularity {
            Some(SteppingGranularity::Instruction) => true,
            Some(SteppingGranularity::Line) | Some(SteppingGranularity::Statement) => false,
            None => self.in_disassembly(line),
        }
    }

    /// Gets ready for a step out, and only then sees whether the thread was found.
    pub fn handle_step_out(&mut self, found: bool, running: bool) -> (r: (
        Vec<Action>,
        Result<(), Error>,
    ))
        ensures
            *final(self) == ready_to_resume(*old(self)),
            r.0.deep_view() == resume_actions(),
            thread_checked(found, running, r.1),
    {
        let actions: Vec<Action> = self.before_resume();
        (actions, thread_by_id(found, running))
    }

    /// Gets ready for a step back, which the debugger cannot do by lines: from here on all is shown
    /// in disassembly.
    pub fn handle_step_back(&mut self, thread_id: i64) -> (r: (Vec<Action>, CommandScript))
        ensures
            *final(self) == ready_to_step_back(*old(self)),
            r.0.deep_view() == resume_actions(),
            r.1.kind == ScriptKind::Reverse,
            r.1.commands.deep_view() == step_back_texts(thread_id),
            script_fresh(r.1),
    {
        let actions: Vec<Action> = self.before_resume();
        self.show_disassembly = ShowDisassembly::Always;
        (actions, CommandScript::reverse_exec(step_back_commands(thread_id)))
    }

    /// Gets ready to run backwards.
    pub fn handle_reverse_continue(&mut self, thread_id: i64) -> (r: (Vec<Action>, CommandScript))
        ensures
            *final(self) == ready_to_resume(*old(self)),
            r.0.deep_view() == resume_actions(),
            r.1.kind == ScriptKind::Reverse,
            r.1.commands.deep_view() == reverse_continue_texts(thread_id),
            script_fresh(r.1),
    {
        let actions: Vec<Action> = self.before_resume();
        (actions, CommandScript::reverse_exec(reverse_continue_commands(thread_id)))
    }
}

/// A place that was offered before the debuggee ran on is not reached afterwards.
pub proof fn law_resuming_forgets_the_offered_line(
    s: DebugSession,
    found: bool,
    running: bool,
    r: Result<GotoPlan, Error>,
)
    requires
        goto_planned(ready_to_resume(s).last_goto_request, found, running, r),
    ensures
        r matches Err(e) && says(e, Blame::Internal, "Unexpected goto message."@),
{
}

/// A frame that the user selected before the debuggee ran on is not preferred afterwards.
pub proof fn law_resuming_forgets_the_selected_frame(s: DebugSession)
    ensures
        chosen_frame(ready_to_resume(s), Some(Container::StackFrame)) == FrameChoice::Given,
{
}

/// A request to continue succeeds just where the debuggee was resumed or runs in spite of a
/// failure, and then tells that all threads run. The client gets an event of its own just in the
/// second case. Whatever comes of it, the session has forgotten what was true at the stop.
pub proof fn law_continue_tells_that_all_threads_run(
    s: DebugSession,
    resumed: Result<(), String>,
    running: bool,
    r: Result<(ContinueResponse, Notice), Error>,
)
    requires
        continued(resumed, running, r),
    ensures
        r is Ok <==> resumed is Ok || running,
        r matches Ok((response, notice)) ==> {
            &&& response.all_threads_continued == Some(true)
            &&& notice == Notice::Due <==> resumed is Err && running
        },
        !ready_to_resume(s).selected_frame_changed,
        ready_to_resume(s).last_goto_request is None,
        resume_actions().contains(ActionView::ResetVariables),
        resume_actions().contains(ActionView::ClearStepInTargets),
{
    assert(resume_actions()[0] == ActionView::ResetVariables);
    assert(resume_actions()[1] == ActionView::ClearStepInTargets);
}

/// A request to pause succeeds just where the debuggee was stopped or does not run in spite of a
/// failure. The client gets an event of its own just in the second case. Else the user is told why.
pub proof fn law_pausing_what_is_stopped_succeeds(
    stopped: Result<(), String>,
    running: bool,
    r: Result<Notice, Error>,
)
    requires
        paused(stopped, running, r),
    ensures
        r is Ok <==> stopped is Ok || !running,
        r matches Ok(notice) ==> (notice == Notice::Due <==> stopped is Err),
        r matches Err(e) ==> e.blame == Blame::User && e.message@ == stopped->Err_0@,
{
}

/// Where a request to continue fails, the user is told why.
pub proof fn law_failed_continues_are_told_to_the_user(
    resumed: Result<(), String>,
    running: bool,
    r: Result<(ContinueResponse, Notice), Error>,
)
    requires
        continued(resumed, running, r),
    ensures
        r matches Err(e) ==> resumed is Err && !running && e.blame == Blame::User && e.message@
            == resumed->Err_0@,
{
}

/// Before the debuggee runs on, the session forgets the line that was offered and that a frame was
/// selected, and nothing else. Around it the variables and the functions to step into are forgotten.
/// A step back shows all in disassembly from then on, and changes nothing else besides.
pub proof fn law_resuming_forgets_just_the_stop(s: DebugSession)
    ensures
        !ready_to_resume(s).selected_frame_changed,
        ready_to_resume(s).last_goto_request is None,
        ready_to_resume(s) == (DebugSession {
            selected_frame_changed: ready_to_resume(s).selected_frame_changed,
            last_goto_request: ready_to_resume(s).last_goto_request,
            ..s
        }),
        resume_actions().len() == 2,
        resume_actions()[0] is ResetVariables,
        resume_actions()[1] is ClearStepInTargets,
        ready_to_step_back(s).show_disassembly == ShowDisassembly::Always,
        (DebugSession { show_disassembly: s.show_disassembly, ..ready_to_step_back(s) })
            == ready_to_resume(s),
{
}

/// A step over needs its thread before anything is forgotten: without it nothing changes and it is
/// told why.
pub proof fn law_step_over_needs_its_thread(
    s: DebugSession,
    found: bool,
    running: bool,
    after: DebugSession,
    r: Result<Vec<Action>, Error>,
)
    requires
        next_readied(s, found, running, after, r),
    ensures
        r is Ok <==> found,
        !found ==> after == s && thread_checked(false, running, Err(r->Err_0)),
        found ==> after == ready_to_resume(s) && r->Ok_0.deep_view() == resume_actions(),
{
}

/// A step goes by instructions where the client says so, not where it says lines or statements, and
/// else where the frame is shown in disassembly.
pub proof fn law_steps_go_as_the_client_says(show: ShowDisassembly, line: FrameLine)
    ensures
        steps_by_instruction(Some(SteppingGranularity::Instruction), show, line),
        !steps_by_instruction(Some(SteppingGranularity::Line), show, line),
        !steps_by_instruction(Some(SteppingGranularity::Statement), show, line),
        steps_by_instruction(None, ShowDisassembly::Always, line),
        !steps_by_instruction(None, ShowDisassembly::Never, line),
        steps_by_instruction(None, ShowDisassembly::Auto, line) <==> !(line is Known && line->local
            is Some),
{
}

}
