//! Events of the debugger, and what the client is told about them.
use vstd::prelude::*;
use vstd::utf8::valid_utf8;

use crate::console::{
    console_error, console_message, message_event, output_bytes, output_event, text_event,
};
use crate::data_breakpoints::{
    breakpoint_for, wpid_to_bpid, WatchOutcome, WatchRequest, WATCHPOINT_ID_BASE,
};
use crate::outside::lossy_text;
use crate::protocol::{Event, EventView, StoppedEventBody, StoppedEventView};
use crate::session::DebugSession;
use crate::stack::StopReason;
use crate::text::{push_signed_decimal, signed_decimal};

verus! {

/// As what an event of the debugger can be read. It can be readable in more than one way.
#[derive(Clone, Copy, Debug, PartialEq, Eq, Structural)]
pub struct EventReadings {
    pub process: bool,
    pub target: bool,
    pub breakpoint: bool,
    pub thread: bool,
    pub diagnostic: bool,
}

/// As what an event of the debugger is handled.
#[derive(Clone, Copy, Debug, PartialEq, Eq, Structural)]
pub enum EventClass {
    Process,
    Target,
    Breakpoint,
    Thread,
    Diagnostic,
    Ignored,
}

/// As what an event of the debugger is handled.
pub open spec fn event_class(event: EventReadings) -> EventClass {
    if event.process {
        EventClass::Process
    } else if event.target {
        EventClass::Target
    } else if event.breakpoint {
        EventClass::Breakpoint
    } else if event.thread {
        EventClass::Thread
    } else if event.diagnostic {
        EventClass::Diagnostic
    } else {
        EventClass::Ignored
    }
}

/// As what an event of the debugger is handled: the first of the ways in which it can be read.
pub fn handle_debug_event(event: EventReadings) -> (r: EventClass)
    ensures
        r == event_class(event),
{
    if event.process {
        EventClass::Process
    } else if event.target {
        EventClass::Target
    } else if event.breakpoint {
        EventClass::Breakpoint
    } else if event.thread {
        EventClass::Thread
    } else if event.diagnostic {
        EventClass::Diagnostic
    } else {
        EventClass::Ignored
    }
}

/// The states of the debuggee.
#[derive(Clone, Copy, Debug, PartialEq, Eq, Structural)]
pub enum ProcessState {
    Invalid,
    Unloaded,
    Connected,
    Attaching,
    Launching,
    Stopped,
    Running,
    Stepping,
    Crashed,
    Detached,
    Exited,
    Suspended,
}

/// An event of the debuggee: which of its aspects it is about, and the state that it reports.
/// `restarted` tells that the debuggee was stopped and runs again already.
#[derive(Clone, Copy, Debug, PartialEq, Eq, Structural)]
pub struct ProcessEvent {
    pub state_changed: bool,
    pub stdout: bool,
    pub stderr: bool,
    pub state: ProcessState,
    pub restarted: bool,
}

/// What is done about an event of the debuggee.
#[derive(Clone, Copy, Debug, PartialEq, Eq, Structural)]
pub enum ProcessStep {
    NotifyRunning,
    NotifyStopped,
    NotifyTerminated,
    /// Read all that the debuggee wrote to its standard output.
    ReadStdout,
    /// Read all that the debuggee wrote to its standard error.
    ReadStderr,
}

/// What is done about a new state of the debuggee.
pub open spec fn state_step(state: ProcessState, restarted: bool) -> Option<ProcessStep> {
    match state {
        ProcessState::Running
        | ProcessState::Stepping
        | ProcessState::Attaching
        | ProcessState::Launching => Some(ProcessStep::NotifyRunning),
        ProcessState::Stopped => if restarted {
            None
        } else {
            Some(ProcessStep::NotifyStopped)
        },
        ProcessState::Crashed | ProcessState::Suspended => Some(ProcessStep::NotifyStopped),
        ProcessState::Exited | ProcessState::Detached => Some(ProcessStep::NotifyTerminated),
        ProcessState::Invalid | ProcessState::Unloaded | ProcessState::Connected => None,
    }
}

/// What is done about an event of the debuggee. One stream is read at a time.
pub open spec fn process_steps(event: ProcessEvent) -> Seq<ProcessStep> {
    let about_state = match state_step(event.state, event.restarted) {
        Some(step) if event.state_changed => seq![step],
        _ => Seq::empty(),
    };
    let about_output = if event.stdout {
        seq![ProcessStep::ReadStdout]
    } else if event.stderr {
        seq![ProcessStep::ReadStderr]
    } else {
        Seq::empty()
    };
    about_state + about_output
}

/// What is done about an event of the debuggee, one after the other.
pub fn handle_process_event(event: ProcessEvent) -> (steps: Vec<ProcessStep>)
    ensures
        steps@ == process_steps(event),
{
    let mut steps: Vec<ProcessStep> = Vec::new();
    if event.state_changed {
        match event.state {
            ProcessState::Running
            | ProcessState::Stepping
            | ProcessState::Attaching
            | ProcessState::Launching => {
                steps.push(ProcessStep::NotifyRunning);
            },
            ProcessState::Stopped => {
                if !event.restarted {
                    steps.push(ProcessStep::NotifyStopped);
                }
            },
            ProcessState::Crashed | ProcessState::Suspended => {
                steps.push(ProcessStep::NotifyStopped);
            },
            ProcessState::Exited | ProcessState::Detached => {
                steps.push(ProcessStep::NotifyTerminated);
            },
            ProcessState::Invalid | ProcessState::Unloaded | ProcessState::Connected => {},
        }
    }
    if event.stdout {
        steps.push(ProcessStep::ReadStdout);
    } else if event.stderr {
        steps.push(ProcessStep::ReadStderr);
    }
    proof {
        assert(steps@ =~= process_steps(event));
    }
    steps
}

/// The event for a piece of output of the debuggee.
pub open spec fn piece_event(category: Seq<char>, piece: Seq<u8>) -> Option<EventView> {
    if piece.len() > 0 {
        Some(output_event(category, piece))
    } else {
        None
    }
}

/// The event for a piece of output of the debuggee. A piece without a byte is the end of what there
/// is to read.
pub fn output_read(category: &str, piece: &[u8]) -> (r: Option<Event>)
    ensures
        r.deep_view() == piece_event(category@, piece@),
        r is Some && valid_utf8(piece@) ==> r.deep_view() == Some(text_event(category@, piece@)),
{
    if piece.len() > 0 {
        Some(output_bytes(category, piece))
    } else {
        None
    }
}

/// What the client is told when the debuggee runs.
pub open spec fn running_event(first_thread: u64) -> EventView {
    EventView::Continued { thread_id: first_thread as i64, all_threads_continued: Some(true) }
}

/// Tells the client that the debuggee runs. `first_thread` is the first of its threads.
pub fn notify_process_running(first_thread: u64) -> (e: Event)
    ensures
        e.deep_view() == running_event(first_thread),
{
    Event::Continued {
        thread_id: #[verifier::truncate] (first_thread as i64),
        all_threads_continued: Some(true),
    }
}

/// Whether a thread that stopped for this reason is one to show.
pub open spec fn is_valid_reason(reason: StopReason) -> bool {
    !(reason is Invalid) && !(reason is NoReason)
}

fn valid_reason(reason: &StopReason) -> (r: bool)
    ensures
        r == is_valid_reason(*reason),
{
    match reason {
        StopReason::Invalid | StopReason::NoReason => false,
        _ => true,
    }
}

/// Whether `r` is the number of the thread that is to be selected, or none to keep the selection.
pub open spec fn selects(selected: StopReason, threads: Seq<StopReason>, r: Option<usize>) -> bool {
    match r {
        Some(i) => {
            &&& !is_valid_reason(selected)
            &&& i < threads.len()
            &&& is_valid_reason(threads[i as int])
            &&& forall|j: int| 0 <= j < i ==> !is_valid_reason(#[trigger] threads[j])
        },
        None => is_valid_reason(selected) || forall|j: int|
            0 <= j < threads.len() ==> !is_valid_reason(#[trigger] threads[j]),
    }
}

/// Finds the thread to show: the selected one if it has a reason to have stopped, or else the first
/// that has. Gives the number of the thread that is to be selected, or none to keep the selection.
pub fn stopped_thread(selected: &StopReason, threads: &Vec<StopReason>) -> (r: Option<usize>)
    ensures
        selects(*selected, threads@, r),
{
    if valid_reason(selected) {
        return None;
    }
    let mut i: usize = 0;
    while i < threads.len()
        invariant
            i <= threads@.len(),
            !is_valid_reason(*selected),
            forall|j: int| 0 <= j < i ==> !is_valid_reason(#[trigger] threads@[j]),
        decreases threads@.len() - i,
    {
        if valid_reason(&threads[i]) {
            return Some(i);
        }
        i = i + 1;
    }
    None
}

/// A thread that stopped. `data` belongs to the reason: it is the number of a breakpoint or of a
/// watchpoint where one was hit.
#[derive(Debug)]
pub struct StoppedThread {
    pub thread_id: u64,
    pub reason: StopReason,
    pub data: u64,
    pub description: String,
}

/// The reason that the client is given.
pub open spec fn client_reason(reason: StopReason) -> Seq<char> {
    match reason {
        StopReason::Breakpoint => "breakpoint"@,
        StopReason::Watchpoint => "data breakpoint"@,
        StopReason::Trace | StopReason::PlanComplete => "step"@,
        StopReason::Signal | StopReason::Exception => "exception"@,
        _ => "unknown"@,
    }
}

/// The description that the client is given: none for the ordinary reasons, and none without text.
pub open spec fn client_description(thread: StoppedThread) -> Option<Seq<char>> {
    match thread.reason {
        StopReason::Breakpoint
        | StopReason::Watchpoint
        | StopReason::Trace
        | StopReason::PlanComplete => None,
        _ => if thread.description@.len() > 0 {
            Some(thread.description@)
        } else {
            None
        },
    }
}

/// The breakpoints that were hit.
pub open spec fn hit_breakpoints(thread: StoppedThread) -> Option<Seq<i64>> {
    match thread.reason {
        StopReason::Breakpoint => Some(seq![thread.data as i64]),
        StopReason::Watchpoint => Some(
            seq![((thread.data as u32) + WATCHPOINT_ID_BASE) as i64],
        ),
        _ => None,
    }
}

/// What the client is told when the debuggee stopped. Where there is a description, the console
/// shows it first.
pub open spec fn stop_events(thread: StoppedThread) -> Seq<EventView> {
    let stop = EventView::Stopped(
        StoppedEventView {
            reason: client_reason(thread.reason),
            description: client_description(thread),
            thread_id: Some(thread.thread_id as i64),
            all_threads_stopped: Some(true),
            preserve_focus_hint: None,
            hit_breakpoint_ids: hit_breakpoints(thread),
        },
    );
    match client_description(thread) {
        Some(text) => seq![message_event(Some("stderr"@), "Stop reason: "@ + text), stop],
        None => seq![stop],
    }
}

/// Tells the client that the debuggee stopped, with the thread that was found.
pub fn notify_process_stopped(thread: &StoppedThread) -> (events: Vec<Event>)
    ensures
        events.deep_view() == stop_events(*thread),
{
    let mut hit: Option<Vec<i64>> = None;
    let mut described: bool = false;
    let reason: &str = match &thread.reason {
        StopReason::Breakpoint => {
            let mut ids: Vec<i64> = Vec::new();
            ids.push(#[verifier::truncate] (thread.data as i64));
            hit = Some(ids);
            "breakpoint"
        },
        StopReason::Watchpoint => {
            let mut ids: Vec<i64> = Vec::new();
            ids.push(wpid_to_bpid(#[verifier::truncate] (thread.data as u32)));
            hit = Some(ids);
            "data breakpoint"
        },
        StopReason::Trace | StopReason::PlanComplete => "step",
        StopReason::Signal | StopReason::Exception => {
            described = true;
            "exception"
        },
        _ => {
            described = true;
            "unknown"
        },
    };
    proof {
        assert(hit.deep_view() == hit_breakpoints(*thread)) by {
            if let Some(ids) = hit {
                assert(ids.deep_view() =~= hit_breakpoints(*thread)->0);
            }
        }
    }
    let mut events: Vec<Event> = Vec::new();
    let mut description: Option<String> = None;
    if described && !thread.description.as_str().is_empty() {
        let text: String = "Stop reason: ".to_owned().concat(thread.description.as_str());
        events.push(console_error(text.as_str()));
        description = Some(thread.description.clone());
    }
    events.push(
        Event::Stopped(
            StoppedEventBody {
                reason: reason.to_owned(),
                description,
                thread_id: Some(#[verifier::truncate] (thread.thread_id as i64)),
                all_threads_stopped: Some(true),
                preserve_focus_hint: None,
                hit_breakpoint_ids: hit,
            },
        ),
    );
    proof {
        assert(events.deep_view() =~= stop_events(*thread));
    }
    events
}

/// What the client is told when the debuggee is gone.
pub open spec fn end_events(state: ProcessState, exit_status: i32) -> Seq<EventView> {
    match state {
        ProcessState::Exited => seq![
            message_event(
                Some("console"@),
                "Process exited with code "@ + signed_decimal(exit_status as int) + "."@,
            ),
            EventView::Exited { exit_code: exit_status as i64 },
            EventView::Terminated,
        ],
        ProcessState::Detached => seq![
            message_event(Some("console"@), "Detached from debuggee."@),
            EventView::Terminated,
        ],
        _ => Seq::empty(),
    }
}

/// Tells the client that the debuggee is gone, going by the state that it is in.
pub fn notify_process_terminated(state: ProcessState, exit_status: i32) -> (events: Vec<Event>)
    ensures
        events.deep_view() == end_events(state, exit_status),
{
    let mut events: Vec<Event> = Vec::new();
    match state {
        ProcessState::Exited => {
            let exit_code: i64 = exit_status as i64;
            let mut text: String = "Process exited with code ".to_owned();
            push_signed_decimal(&mut text, exit_code);
            text.append(".");
            events.push(console_message(text.as_str()));
            events.push(Event::Exited { exit_code });
            events.push(Event::Terminated);
        },
        ProcessState::Detached => {
            events.push(console_message("Detached from debuggee."));
            events.push(Event::Terminated);
        },
        _ => {},
    }
    proof {
        assert(events.deep_view() =~= end_events(state, exit_status));
    }
    events
}

/// The session `s` after an event of a thread.
pub open spec fn after_thread_event(s: DebugSession, frame_selected: bool) -> DebugSession {
    DebugSession { selected_frame_changed: s.selected_frame_changed || frame_selected, ..s }
}

impl DebugSession {
    /// Takes note of an event of a thread. `frame_selected` tells whether the user has selected
    /// another frame.
    pub fn handle_thread_event(&mut self, frame_selected: bool)
        ensures
            *final(self) == after_thread_event(*old(self), frame_selected),
    {
        if frame_selected {
            self.selected_frame_changed = true;
        }
    }
}

/// A stop is told with one event of its kind, which comes last and names the thread, and every
/// description is shown in the console too.
pub proof fn law_stop_is_told_once(thread: StoppedThread)
    ensures
        ({
            let events = stop_events(thread);
            &&& 1 <= events.len() <= 2
            &&& events.last() matches EventView::Stopped(body)
            &&& body.thread_id == Some(thread.thread_id as i64)
            &&& body.all_threads_stopped == Some(true)
            &&& events.len() == 2 <==> body.description is Some
            &&& forall|i: int| 0 <= i < events.len() - 1 ==> !((#[trigger] events[i]) is Stopped)
        }),
{
}

/// The client is told of an end exactly when the debuggee has exited or was let go, and the end is
/// the last that it is told. The exit code is told before it, where there is one.
pub proof fn law_end_is_told_last(state: ProcessState, exit_status: i32)
    ensures
        ({
            let events = end_events(state, exit_status);
            &&& events.len() > 0 <==> (state == ProcessState::Exited || state
                == ProcessState::Detached)
            &&& events.len() > 0 ==> events.last() is Terminated
            &&& state == ProcessState::Exited <==> events.contains(
                EventView::Exited { exit_code: exit_status as i64 },
            )
        }),
{
    let exited = EventView::Exited { exit_code: exit_status as i64 };
    let events = end_events(state, exit_status);
    if state == ProcessState::Exited {
        assert(events[1] == exited);
    }
}

/// A stop after which the debuggee runs again already is not told to the client.
pub proof fn law_restarted_stop_is_not_told(event: ProcessEvent)
    requires
        event.state == ProcessState::Stopped,
        event.restarted,
    ensures
        !process_steps(event).contains(ProcessStep::NotifyStopped),
{
}

/// A stop at a watchpoint names the breakpoint that the client was told of when it was set.
pub proof fn law_hit_watchpoint_is_the_one_that_was_set(
    thread: StoppedThread,
    watch: WatchRequest,
    id: u32,
)
    requires
        thread.reason is Watchpoint,
        thread.data == id,
    ensures
        hit_breakpoints(thread) == Some(
            seq![breakpoint_for(watch, WatchOutcome::Watching(id)).id->0],
        ),
{
}

/// An event is handled in the first way in which it can be read, in this order: as one of the
/// process, of the target, of a breakpoint, of a thread, and as a diagnosis. It is ignored just where
/// it cannot be read in any way.
pub proof fn law_events_are_handled_in_one_way(event: EventReadings)
    ensures
        event_class(event) == EventClass::Process <==> event.process,
        event_class(event) == EventClass::Target <==> event.target && !event.process,
        event_class(event) == EventClass::Breakpoint <==> event.breakpoint && !event.process
            && !event.target,
        event_class(event) == EventClass::Thread <==> event.thread && !event.process
            && !event.target && !event.breakpoint,
        event_class(event) == EventClass::Diagnostic <==> event.diagnostic && !event.process
            && !event.target && !event.breakpoint && !event.thread,
        event_class(event) == EventClass::Ignored <==> !event.process && !event.target
            && !event.breakpoint && !event.thread && !event.diagnostic,
{
}

/// A new state of the debuggee is told just as what it is: running, stopped unless it runs again, or
/// gone. A state that has not changed is not told.
pub proof fn law_states_are_told_as_they_are(event: ProcessEvent)
    ensures
        ({
            let steps = process_steps(event);
            let state = event.state;
            &&& steps.contains(ProcessStep::NotifyRunning) <==> event.state_changed && (state
                == ProcessState::Running || state == ProcessState::Stepping || state
                == ProcessState::Attaching || state == ProcessState::Launching)
            &&& steps.contains(ProcessStep::NotifyStopped) <==> event.state_changed && (state
                == ProcessState::Stopped && !event.restarted || state == ProcessState::Crashed
                || state == ProcessState::Suspended)
            &&& steps.contains(ProcessStep::NotifyTerminated) <==> event.state_changed && (state
                == ProcessState::Exited || state == ProcessState::Detached)
        }),
{
    let steps = process_steps(event);
    if event.state_changed && state_step(event.state, event.restarted) is Some {
        assert(steps[0] == state_step(event.state, event.restarted)->0);
    }
}

/// What the debuggee wrote is read just where the event says so, after the state was told: standard
/// output first, and standard error where that is all there is. Nothing is done twice.
pub proof fn law_output_is_read_after_the_state(event: ProcessEvent)
    ensures
        ({
            let steps = process_steps(event);
            &&& steps.len() <= 2
            &&& steps.contains(ProcessStep::ReadStdout) <==> event.stdout
            &&& steps.contains(ProcessStep::ReadStderr) <==> event.stderr && !event.stdout
            &&& event.stdout ==> steps.last() == ProcessStep::ReadStdout
            &&& event.stderr && !event.stdout ==> steps.last() == ProcessStep::ReadStderr
            &&& steps.len() == 2 ==> (event.stdout || event.stderr) && event.state_changed
        }),
{
    let steps = process_steps(event);
    if event.stdout || event.stderr {
        assert(steps.last() == steps[steps.len() - 1]);
    }
}

/// Every piece of output that holds anything is passed on, in its category and as it is.
pub proof fn law_output_is_passed_on(category: Seq<char>, piece: Seq<u8>)
    ensures
        piece_event(category, piece) is None <==> piece.len() == 0,
        piece.len() > 0 ==> piece_event(category, piece) == Some(
            EventView::Output { category: Some(category), output: lossy_text(piece) },
        ),
{
}

/// That the debuggee runs is told of all its threads, with the first.
pub proof fn law_running_is_told_of_all_threads(first_thread: u64)
    ensures
        running_event(first_thread) is Continued,
        running_event(first_thread)->all_threads_continued == Some(true),
        first_thread <= i64::MAX ==> running_event(first_thread)->Continued_thread_id
            == first_thread,
{
}

/// The selection stays where the selected thread has a reason to have stopped, or none has. Else the
/// first thread is selected that has one. Every reason counts but an invalid one and none.
pub proof fn law_threads_with_a_reason_are_shown(
    selected: StopReason,
    threads: Seq<StopReason>,
    r: Option<usize>,
    k: int,
)
    requires
        selects(selected, threads, r),
    ensures
        !(selected is Invalid) && !(selected is NoReason) ==> r is None,
        (selected is Invalid || selected is NoReason) && 0 <= k < threads.len() && !(threads[k]
            is Invalid) && !(threads[k] is NoReason) ==> r is Some && r->0 <= k,
        r matches Some(i) ==> i < threads.len() && !(threads[i as int] is Invalid) && !(
        threads[i as int] is NoReason),
{
}

/// The client is given the reason of a stop in its own words.
pub proof fn law_stops_are_told_with_their_reason(thread: StoppedThread)
    ensures
        ({
            let stop = stop_events(thread).last();
            let reason = stop->Stopped_0.reason;
            &&& stop is Stopped
            &&& thread.reason is Breakpoint ==> reason == "breakpoint"@
            &&& thread.reason is Watchpoint ==> reason == "data breakpoint"@
            &&& thread.reason is Trace || thread.reason is PlanComplete ==> reason == "step"@
            &&& thread.reason is Signal || thread.reason is Exception ==> reason == "exception"@
            &&& thread.reason is Invalid || thread.reason is NoReason || thread.reason is Other
                ==> reason == "unknown"@
        }),
{
}

/// A stop at a breakpoint or a watchpoint names just that one, and another stop names none.
pub proof fn law_stops_name_what_was_hit(thread: StoppedThread)
    ensures
        ({
            let hit = stop_events(thread).last()->Stopped_0.hit_breakpoint_ids;
            &&& hit is Some <==> thread.reason is Breakpoint || thread.reason is Watchpoint
            &&& hit is Some ==> hit->0.len() == 1
            &&& thread.reason is Breakpoint && thread.data <= i64::MAX ==> hit->0[0] == thread.data
            &&& thread.reason is Watchpoint && thread.data <= u32::MAX ==> hit->0[0] == thread.data
                + 1_000_000
        }),
{
}

/// A stop is described just where there is a description and the reason does not speak for itself.
/// The console shows the description first, as an error.
pub proof fn law_odd_stops_are_described(thread: StoppedThread)
    ensures
        ({
            let events = stop_events(thread);
            let description = events.last()->Stopped_0.description;
            let plain = thread.reason is Breakpoint || thread.reason is Watchpoint || thread.reason
                is Trace || thread.reason is PlanComplete;
            &&& description is Some <==> !plain && thread.description@.len() > 0
            &&& description is Some ==> description->0 == thread.description@
            &&& description is Some ==> events.len() == 2 && events[0] == (EventView::Output {
                category: Some("stderr"@),
                output: "Stop reason: "@ + thread.description@ + "\n"@,
            })
            &&& description is None ==> events.len() == 1
            &&& events.last()->Stopped_0.preserve_focus_hint is None
            &&& thread.thread_id <= i64::MAX ==> events.last()->Stopped_0.thread_id is Some
                && events.last()->Stopped_0.thread_id->0 == thread.thread_id
        }),
{
}

/// An exit is told in the console with its code, then as an exit with the same code, then as the end.
/// Letting the debuggee go is told in the console and as the end. Nothing is told of other states.
pub proof fn law_ends_are_told_in_order(state: ProcessState, exit_status: i32)
    ensures
        ({
            let events = end_events(state, exit_status);
            &&& state == ProcessState::Exited ==> {
                &&& events.len() == 3
                &&& events[0] == (EventView::Output {
                    category: Some("console"@),
                    output: "Process exited with code "@ + signed_decimal(exit_status as int) + "."@
                        + "\n"@,
                })
                &&& events[1] is Exited
                &&& events[1]->exit_code == exit_status
                &&& events[2] is Terminated
            }
            &&& state == ProcessState::Detached ==> {
                &&& events.len() == 2
                &&& events[0] == (EventView::Output {
                    category: Some("console"@),
                    output: "Detached from debuggee."@ + "\n"@,
                })
                &&& events[1] is Terminated
            }
            &&& state != ProcessState::Exited && state != ProcessState::Detached ==> events.len()
                == 0
        }),
{
}

/// That the user has selected a frame is remembered, and nothing else of the session changes.
pub proof fn law_selected_frames_are_remembered(s: DebugSession)
    ensures
        after_thread_event(s, true).selected_frame_changed,
        after_thread_event(s, false) == s,
        after_thread_event(s, true) == (DebugSession { selected_frame_changed: true, ..s }),
{
}

}
