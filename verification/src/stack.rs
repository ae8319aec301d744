//! Threads and their stack frames.
use vstd::prelude::*;

use crate::error::{blame_nobody, says, str_error, Blame, Error};
use crate::protocol::{Source, SourceView};
use crate::session::{DebugSession, ShowDisassembly};
use crate::text::{
    address_string, address_text, decimal, hex_upper, hex_upper_string,
    law_decimal_writes_the_number, law_only_negative_numbers_have_a_minus, push_decimal,
    push_signed_decimal, signed_decimal,
};

verus! {

/// A thread of the debuggee, as the debugger describes it.
#[derive(Debug)]
pub struct ThreadInfo {
    pub index_id: u32,
    pub thread_id: u64,
    pub name: Option<String>,
}

/// A thread, as the client sees it.
#[derive(Debug)]
pub struct Thread {
    pub id: i64,
    pub name: String,
}

#[verifier::ext_equal]
pub struct ThreadView {
    pub id: i64,
    pub name: Seq<char>,
}

impl DeepView for Thread {
    type V = ThreadView;

    open spec fn deep_view(&self) -> ThreadView {
        ThreadView { id: self.id, name: self.name@ }
    }
}

/// How a thread is called: by its index and its identifier, and by its name if it has one.
pub open spec fn thread_title(t: ThreadInfo) -> Seq<char> {
    let title = decimal(t.index_id as nat) + ": tid="@ + decimal(t.thread_id as nat);
    match t.name {
        Some(name) => title + " \""@ + name@ + "\""@,
        None => title,
    }
}

/// A thread, as the client sees it.
pub open spec fn thread_view(t: ThreadInfo) -> ThreadView {
    ThreadView { id: t.thread_id as i64, name: thread_title(t) }
}

/// The threads of the debuggee, as the client sees them.
pub open spec fn thread_views(threads: Seq<ThreadInfo>) -> Seq<ThreadView> {
    Seq::new(threads.len(), |i: int| thread_view(threads[i]))
}

/// The threads of the debuggee, in the order of the debugger.
pub fn handle_threads(threads: &Vec<ThreadInfo>) -> (r: Vec<Thread>)
    ensures
        r.deep_view() == thread_views(threads@),
{
    let mut r: Vec<Thread> = Vec::new();
    let mut i: usize = 0;
    while i < threads.len()
        invariant
            i <= threads@.len(),
            r@.len() == i,
            forall|j: int| 0 <= j < i ==> (#[trigger] r@[j]).deep_view() == thread_view(threads@[j]),
        decreases threads@.len() - i,
    {
        let t: &ThreadInfo = &threads[i];
        let mut name: String = String::new();
        push_decimal(&mut name, t.index_id as u64);
        name.append(": tid=");
        push_decimal(&mut name, t.thread_id);
        if let Some(own) = &t.name {
            name.append(" \"");
            name.append(own.as_str());
            name.append("\"");
        }
        proof {
            assert(name@ =~= thread_title(*t));
        }
        r.push(Thread { id: #[verifier::truncate] (t.thread_id as i64), name });
        i = i + 1;
    }
    proof {
        assert(r.deep_view() =~= thread_views(threads@));
    }
    r
}

/// Whether `e` is the answer about a thread that was not found.
pub open spec fn thread_missing(running: bool, e: Error) -> bool {
    if running {
        says(e, Blame::Nobody, "Not available while the process is running."@)
    } else {
        says(e, Blame::Internal, "Invalid thread_id."@)
    }
}

/// Whether `r` tells whether a thread was found.
pub open spec fn thread_checked(found: bool, running: bool, r: Result<(), Error>) -> bool {
    match r {
        Ok(()) => found,
        Err(e) => !found && thread_missing(running, e),
    }
}

/// Checks that a thread was found. While the debuggee runs, nobody is to blame if it was not.
pub fn thread_by_id(found: bool, running: bool) -> (r: Result<(), Error>)
    ensures
        thread_checked(found, running, r),
{
    if found {
        Ok(())
    } else if running {
        Err(blame_nobody(str_error("Not available while the process is running.")))
    } else {
        Err(str_error("Invalid thread_id."))
    }
}

/// The name and the path of a local source file.
#[derive(Debug)]
pub struct LocalSource {
    pub name: String,
    pub path: String,
}

/// The line of the source text at which a frame stands.
#[derive(Debug)]
pub enum FrameLine {
    Unknown,
    /// `local` is the local file that stands for the source file, if there is one.
    Known { line: u32, column: u32, local: Option<LocalSource> },
}

/// The line of a disassembly at which a frame stands.
#[derive(Debug)]
pub struct DisassemblyLine {
    pub line: u32,
    pub source_name: String,
    pub handle: u32,
}

/// A stack frame, as the debugger describes it. `module_id` is given where the frame is in a
/// module, and `disassembly` where the frame is shown in disassembly that could be had.
#[derive(Debug)]
pub struct FrameInfo {
    pub load_address: u64,
    pub file_address: u64,
    pub function_name: Option<String>,
    pub module_id: Option<String>,
    pub line: FrameLine,
    pub disassembly: Option<DisassemblyLine>,
}

/// A stack frame, as the client sees it.
#[derive(Debug)]
pub struct StackFrame {
    pub id: i64,
    pub name: String,
    pub source: Option<Source>,
    pub line: i64,
    pub column: i64,
    pub instruction_pointer_reference: Option<String>,
    pub module_id: Option<String>,
    pub presentation_hint: Option<String>,
}

#[verifier::ext_equal]
pub struct StackFrameView {
    pub id: i64,
    pub name: Seq<char>,
    pub source: Option<SourceView>,
    pub line: i64,
    pub column: i64,
    pub instruction_pointer_reference: Option<Seq<char>>,
    pub module_id: Option<Seq<char>>,
    pub presentation_hint: Option<Seq<char>>,
}

impl DeepView for StackFrame {
    type V = StackFrameView;

    open spec fn deep_view(&self) -> StackFrameView {
        StackFrameView {
            id: self.id,
            name: self.name@,
            source: self.source.deep_view(),
            line: self.line,
            column: self.column,
            instruction_pointer_reference: self.instruction_pointer_reference.deep_view(),
            module_id: self.module_id.deep_view(),
            presentation_hint: self.presentation_hint.deep_view(),
        }
    }
}

/// Whether a frame that stands at this line is shown in disassembly. Left to itself, the session
/// shows disassembly where there is no local source file.
pub open spec fn shown_in_disassembly(show: ShowDisassembly, line: FrameLine) -> bool {
    match show {
        ShowDisassembly::Always => true,
        ShowDisassembly::Never => false,
        ShowDisassembly::Auto => match line {
            FrameLine::Known { local, .. } => local is None,
            FrameLine::Unknown => true,
        },
    }
}

/// Where a frame stands: its source, line and column.
pub open spec fn frame_position(show: ShowDisassembly, info: FrameInfo) -> (
    Option<SourceView>,
    i64,
    i64,
) {
    if !shown_in_disassembly(show, info.line) {
        match info.line {
            FrameLine::Known { line, column, local: Some(local) } => (
                Some(
                    SourceView {
                        name: Some(local.name@),
                        path: Some(local.path@),
                        source_reference: None,
                    },
                ),
                line as i64,
                column as i64,
            ),
            _ => (None, 0, 0),
        }
    } else {
        match info.disassembly {
            Some(d) => (
                Some(
                    SourceView {
                        name: Some(d.source_name@),
                        path: None,
                        source_reference: Some(d.handle as i64),
                    },
                ),
                d.line as i64,
                0,
            ),
            None => (None, 0, 0),
        }
    }
}

/// A stack frame as the client sees it, where it is the frame number `index` of its thread. Frames
/// in disassembly are marked as of less interest, unless they are all in disassembly or it is the
/// first.
pub open spec fn frame_view(show: ShowDisassembly, index: i64, handle: u32, info: FrameInfo)
    -> StackFrameView {
    let (source, line, column) = frame_position(show, info);
    StackFrameView {
        id: handle as i64,
        name: match info.function_name {
            Some(name) => name@,
            None => hex_upper(info.file_address as nat),
        },
        source,
        line,
        column,
        instruction_pointer_reference: Some(address_text(info.load_address as nat)),
        module_id: info.module_id.deep_view(),
        presentation_hint: if shown_in_disassembly(show, info.line) && index > 0 && show
            != ShowDisassembly::Always {
            Some("subtle"@)
        } else {
            None
        },
    }
}

/// The name under which a frame of a thread is remembered.
pub open spec fn frame_key_text(thread_index: u32, index: i64) -> Seq<char> {
    "["@ + decimal(thread_index as nat) + ","@ + signed_decimal(index as int) + "]"@
}

fn copy_text(s: &Option<String>) -> (r: Option<String>)
    ensures
        r.deep_view() == s.deep_view(),
{
    match s {
        Some(s) => Some(s.clone()),
        None => None,
    }
}

impl DebugSession {
    /// Whether a frame that stands at this line is shown in disassembly.
    pub fn in_disassembly(&self, line: &FrameLine) -> (r: bool)
        ensures
            r == shown_in_disassembly(self.show_disassembly, *line),
    {
        match self.show_disassembly {
            ShowDisassembly::Always => true,
            ShowDisassembly::Never => false,
            ShowDisassembly::Auto => match line {
                FrameLine::Known { line: _, column: _, local } => local.is_none(),
                FrameLine::Unknown => true,
            },
        }
    }

    /// The frame number `index` of its thread, as the client sees it, under a new handle.
    pub fn make_stack_frame(&self, index: i64, handle: u32, info: &FrameInfo) -> (r: StackFrame)
        ensures
            r.deep_view() == frame_view(self.show_disassembly, index, handle, *info),
    {
        let name: String = match &info.function_name {
            Some(name) => name.clone(),
            None => hex_upper_string(info.file_address),
        };
        let mut frame = StackFrame {
            id: handle as i64,
            name,
            source: None,
            line: 0,
            column: 0,
            instruction_pointer_reference: Some(address_string(info.load_address)),
            module_id: copy_text(&info.module_id),
            presentation_hint: None,
        };
        if !self.in_disassembly(&info.line) {
            if let FrameLine::Known { line, column, local } = &info.line {
                if let Some(local) = local {
                    frame.line = *line as i64;
                    frame.column = *column as i64;
                    frame.source = Some(
                        Source {
                            name: Some(local.name.clone()),
                            path: Some(local.path.clone()),
                            source_reference: None,
                        },
                    );
                }
            }
        } else {
            if let Some(d) = &info.disassembly {
                frame.line = d.line as i64;
                frame.source = Some(
                    Source {
                        name: Some(d.source_name.clone()),
                        path: None,
                        source_reference: Some(d.handle as i64),
                    },
                );
            }
            let always: bool = match self.show_disassembly {
                ShowDisassembly::Always => true,
                _ => false,
            };
            if index > 0 && !always {
                frame.presentation_hint = Some("subtle".to_owned());
            }
        }
        frame
    }
}

/// Walks over consecutive numbers, of frames of a thread or of modules: from `next` up to but not
/// including `end`, as long as there is something under each number.
#[derive(Clone, Copy, Debug, PartialEq, Eq, Structural)]
pub struct Walk {
    pub next: i64,
    pub end: i64,
}

/// The first number of a walk: zero unless another is given.
pub open spec fn walk_start(start: Option<i64>) -> i64 {
    match start {
        Some(n) => n,
        None => 0,
    }
}

/// How many numbers a walk covers at most: as many as there are unless a number is given.
pub open spec fn walk_count(count: Option<i64>) -> i64 {
    match count {
        Some(n) => n,
        None => i64::MAX,
    }
}

impl Walk {
    /// The number under which to look next, in the width of the debugger's numbers.
    pub open spec fn number(&self) -> Option<u32> {
        if self.next < self.end {
            Some(self.next as u32)
        } else {
            None
        }
    }

    /// The walk behind its number, or at its end where there was nothing under it.
    pub open spec fn beyond(&self, found: bool) -> Walk {
        if found {
            Walk { next: (self.next + 1) as i64, ..*self }
        } else {
            Walk { end: self.next, ..*self }
        }
    }

    /// A walk from `start` over at most `count` numbers.
    pub fn new(start: Option<i64>, count: Option<i64>) -> (w: Walk)
        requires
            i64::MIN <= walk_start(start) + walk_count(count) <= i64::MAX,
        ensures
            w.next == walk_start(start),
            w.end == walk_start(start) + walk_count(count),
    {
        let next: i64 = start.unwrap_or(0);
        let count: i64 = count.unwrap_or(i64::MAX);
        Walk { next, end: next + count }
    }

    /// The number under which to look next, in the width of the debugger's numbers.
    pub fn index(&self) -> (r: Option<u32>)
        ensures
            r == self.number(),
    {
        if self.next < self.end {
            Some(#[verifier::truncate] (self.next as u32))
        } else {
            None
        }
    }

    /// Goes on behind a number, or ends the walk where there was nothing under it.
    pub fn advance(&mut self, found: bool)
        requires
            old(self).next < old(self).end,
        ensures
            *final(self) == old(self).beyond(found),
    {
        if found {
            self.next = self.next + 1;
        } else {
            self.end = self.next;
        }
    }
}

/// The frames of a thread that a client asked for, so far.
#[derive(Debug)]
pub struct StackTrace {
    pub walk: Walk,
    pub stack_frames: Vec<StackFrame>,
}

/// Whether `r` starts on a trace, or says that the thread was not found.
pub open spec fn trace_started(
    found: bool,
    running: bool,
    start_frame: Option<i64>,
    levels: Option<i64>,
    r: Result<StackTrace, Error>,
) -> bool {
    match r {
        Ok(trace) => {
            &&& found
            &&& trace.walk.next == walk_start(start_frame)
            &&& trace.walk.end == walk_start(start_frame) + walk_count(levels)
            &&& trace.stack_frames@.len() == 0
        },
        Err(e) => !found && thread_missing(running, e),
    }
}

/// Whether `after` is the trace `before` once the frame that came next was taken in. Without a
/// frame the trace is complete.
pub open spec fn frame_taken(
    before: StackTrace,
    show: ShowDisassembly,
    frame: Option<(u32, FrameInfo)>,
    after: StackTrace,
) -> bool {
    match frame {
        Some((handle, info)) => {
            &&& after.walk == (Walk { next: (before.walk.next + 1) as i64, ..before.walk })
            &&& after.stack_frames.deep_view() == before.stack_frames.deep_view().push(
                frame_view(show, before.walk.next, handle, info),
            )
        },
        None => {
            &&& after.walk == (Walk { end: before.walk.next, ..before.walk })
            &&& after.stack_frames == before.stack_frames
        },
    }
}

impl StackTrace {
    /// Starts on the frames of a thread from `start_frame`, at most `levels` of them. `found` tells
    /// whether the thread was found, and `running` whether the debuggee runs.
    pub fn handle_stack_trace(
        found: bool,
        running: bool,
        start_frame: Option<i64>,
        levels: Option<i64>,
    ) -> (r: Result<StackTrace, Error>)
        requires
            found ==> i64::MIN <= walk_start(start_frame) + walk_count(levels) <= i64::MAX,
        ensures
            trace_started(found, running, start_frame, levels, r),
    {
        match thread_by_id(found, running) {
            Ok(()) => Ok(
                StackTrace { walk: Walk::new(start_frame, levels), stack_frames: Vec::new() },
            ),
            Err(e) => Err(e),
        }
    }

    /// The name under which the frame that comes next is remembered.
    pub fn frame_key(&self, thread_index: u32) -> (key: String)
        ensures
            key@ == frame_key_text(thread_index, self.walk.next),
    {
        let mut key: String = "[".to_owned();
        push_decimal(&mut key, thread_index as u64);
        key.append(",");
        push_signed_decimal(&mut key, self.walk.next);
        key.append("]");
        key
    }

    /// Takes in the frame that comes next, under a new handle. Without one the trace is complete.
    pub fn frame_found(&mut self, session: &DebugSession, frame: Option<(u32, FrameInfo)>)
        requires
            old(self).walk.next < old(self).walk.end,
        ensures
            frame_taken(*old(self), session.show_disassembly, frame, *final(self)),
    {
        let ghost before = self.stack_frames.deep_view();
        match frame {
            Some((handle, info)) => {
                let f: StackFrame = session.make_stack_frame(self.walk.next, handle, &info);
                let ghost v = f.deep_view();
                self.stack_frames.push(f);
                self.walk.advance(true);
                proof {
                    assert(self.stack_frames.deep_view() =~= before.push(v));
                }
            },
            None => {
                self.walk.advance(false);
            },
        }
    }
}

/// Why a thread stopped.
#[derive(Debug)]
pub enum StopReason {
    Invalid,
    NoReason,
    Trace,
    Breakpoint,
    Watchpoint,
    Signal,
    Exception,
    PlanComplete,
    /// Another reason of the debugger, by its name.
    Other(String),
}

/// The name that the debugger has for a reason.
pub open spec fn reason_name(reason: StopReason) -> Seq<char> {
    match reason {
        StopReason::Invalid => "Invalid"@,
        StopReason::NoReason => "None"@,
        StopReason::Trace => "Trace"@,
        StopReason::Breakpoint => "Breakpoint"@,
        StopReason::Watchpoint => "Watchpoint"@,
        StopReason::Signal => "Signal"@,
        StopReason::Exception => "Exception"@,
        StopReason::PlanComplete => "PlanComplete"@,
        StopReason::Other(name) => name@,
    }
}

/// When the debuggee is to stop at an exception.
#[derive(Clone, Copy, Debug, PartialEq, Eq, Structural)]
pub enum ExceptionBreakMode {
    Never,
    Always,
    Unhandled,
    UserUnhandled,
}

/// What a client is told about an exception.
#[derive(Debug)]
pub struct ExceptionInfo {
    pub exception_id: String,
    pub description: Option<String>,
    pub break_mode: ExceptionBreakMode,
}

/// Whether `r` tells why a thread stopped.
pub open spec fn exception_told(
    found: bool,
    running: bool,
    reason: StopReason,
    description: Seq<char>,
    r: Result<ExceptionInfo, Error>,
) -> bool {
    match r {
        Ok(info) => {
            &&& found
            &&& info.exception_id@ == reason_name(reason)
            &&& info.description.deep_view() == Some(description)
            &&& info.break_mode == ExceptionBreakMode::Always
        },
        Err(e) => !found && thread_missing(running, e),
    }
}

/// Tells why a thread stopped, if it was found. `running` tells whether the debuggee runs.
pub fn handle_execption_info(
    found: bool,
    running: bool,
    reason: &StopReason,
    description: &str,
) -> (r: Result<ExceptionInfo, Error>)
    ensures
        exception_told(found, running, *reason, description@, r),
{
    if let Err(e) = thread_by_id(found, running) {
        return Err(e);
    }
    let exception_id: String = match reason {
        StopReason::Invalid => "Invalid".to_owned(),
        StopReason::NoReason => "None".to_owned(),
        StopReason::Trace => "Trace".to_owned(),
        StopReason::Breakpoint => "Breakpoint".to_owned(),
        StopReason::Watchpoint => "Watchpoint".to_owned(),
        StopReason::Signal => "Signal".to_owned(),
        StopReason::Exception => "Exception".to_owned(),
        StopReason::PlanComplete => "PlanComplete".to_owned(),
        StopReason::Other(name) => name.clone(),
    };
    Ok(
        ExceptionInfo {
            exception_id,
            description: Some(description.to_owned()),
            break_mode: ExceptionBreakMode::Always,
        },
    )
}

/// The text of a disassembly, as it is shown in place of a source file.
#[derive(Debug)]
pub struct SourceResponse {
    pub content: String,
    pub mime_type: Option<String>,
}

/// Whether `r` answers with a text that is a disassembly.
pub open spec fn source_answered(content: String, r: SourceResponse) -> bool {
    r.content == content && r.mime_type.deep_view() == Some("text/x-lldb.disassembly"@)
}

/// Answers with the text of a disassembly.
pub fn handle_source(content: String) -> (r: SourceResponse)
    ensures
        source_answered(content, r),
{
    SourceResponse { content, mime_type: Some("text/x-lldb.disassembly".to_owned()) }
}

/// What an expression is evaluated in.
#[derive(Clone, Copy, Debug, PartialEq, Eq, Structural)]
pub enum ContextChoice {
    Frame,
    SelectedThread,
    SelectedTarget,
}

/// What an expression is evaluated in.
pub open spec fn context_for(has_frame: bool, process_valid: bool) -> ContextChoice {
    if has_frame {
        ContextChoice::Frame
    } else if process_valid {
        ContextChoice::SelectedThread
    } else {
        ContextChoice::SelectedTarget
    }
}

/// What an expression is evaluated in: a frame if there is one, or else the selected thread of a
/// process if there is one.
pub fn context_from_frame(has_frame: bool, process_valid: bool) -> (r: ContextChoice)
    ensures
        r == context_for(has_frame, process_valid),
{
    if has_frame {
        ContextChoice::Frame
    } else if process_valid {
        ContextChoice::SelectedThread
    } else {
        ContextChoice::SelectedTarget
    }
}

/// Whether a trace holds the frames `found`, in that order, from the number `start` on.
pub open spec fn traced(
    trace: StackTrace,
    show: ShowDisassembly,
    start: i64,
    found: Seq<(u32, FrameInfo)>,
) -> bool {
    &&& trace.walk.next == start + found.len()
    &&& trace.stack_frames.deep_view() == Seq::new(
        found.len(),
        |k: int| frame_view(show, (start + k) as i64, found[k].0, found[k].1),
    )
}

/// A trace starts with no frames.
pub proof fn law_trace_starts_empty(
    running: bool,
    show: ShowDisassembly,
    start_frame: Option<i64>,
    levels: Option<i64>,
    trace: StackTrace,
)
    requires
        trace_started(true, running, start_frame, levels, Ok(trace)),
    ensures
        traced(trace, show, walk_start(start_frame), Seq::empty()),
{
    assert(trace.stack_frames.deep_view() =~= Seq::new(
        0,
        |k: int| frame_view(
            show,
            (walk_start(start_frame) + k) as i64,
            Seq::<(u32, FrameInfo)>::empty()[k].0,
            Seq::<(u32, FrameInfo)>::empty()[k].1,
        ),
    ));
}

/// A trace shows the frames in the order in which they were found, each under the number at which
/// it stands, and never more of them than were asked for.
pub proof fn law_trace_shows_frames_in_order(
    show: ShowDisassembly,
    start: i64,
    found: Seq<(u32, FrameInfo)>,
    more: (u32, FrameInfo),
    before: StackTrace,
    after: StackTrace,
)
    requires
        traced(before, show, start, found),
        before.walk.next < before.walk.end,
        frame_taken(before, show, Some(more), after),
    ensures
        traced(after, show, start, found.push(more)),
        after.walk.end == before.walk.end,
        after.stack_frames@.len() <= after.walk.end - start,
{
    assert(before.stack_frames.deep_view().len() == before.stack_frames@.len());
    assert(after.stack_frames.deep_view().len() == after.stack_frames@.len());
    assert(after.stack_frames.deep_view() =~= Seq::new(
        found.push(more).len(),
        |k: int| frame_view(
            show,
            (start + k) as i64,
            found.push(more)[k].0,
            found.push(more)[k].1,
        ),
    ));
}

/// The first number at which there is no frame ends a trace.
pub proof fn law_trace_ends_where_the_stack_ends(
    show: ShowDisassembly,
    start: i64,
    found: Seq<(u32, FrameInfo)>,
    before: StackTrace,
    after: StackTrace,
)
    requires
        traced(before, show, start, found),
        frame_taken(before, show, None, after),
    ensures
        traced(after, show, start, found),
        after.walk.next == after.walk.end,
{
}

/// A frame that has a local source file is shown in it, unless all is to be shown in disassembly.
pub proof fn law_local_source_is_preferred(
    show: ShowDisassembly,
    index: i64,
    handle: u32,
    info: FrameInfo,
)
    requires
        show != ShowDisassembly::Always,
        info.line is Known,
        info.line->local is Some,
    ensures
        ({
            let frame = frame_view(show, index, handle, info);
            &&& frame.source is Some
            &&& frame.source->0.path == Some(info.line->local->0.path@)
            &&& frame.line == info.line->line
            &&& frame.presentation_hint is None
        }),
{
}

/// The first frame is never marked as of less interest, and no frame is where all is shown in
/// disassembly.
pub proof fn law_first_frame_is_of_full_interest(
    show: ShowDisassembly,
    index: i64,
    handle: u32,
    info: FrameInfo,
)
    requires
        index == 0 || show == ShowDisassembly::Always,
    ensures
        frame_view(show, index, handle, info).presentation_hint is None,
{
}

/// What the debugger has under a number of a thread's stack, whose frames are `stack`, each with the
/// handle that it is remembered under.
pub open spec fn frame_at(stack: Seq<(u32, FrameInfo)>, index: u32) -> Option<(u32, FrameInfo)> {
    if index < stack.len() {
        Some(stack[index as int])
    } else {
        None
    }
}

/// The frames of a stack from the number `start` on, at most `count` of them, as the client sees
/// them.
pub open spec fn page(
    show: ShowDisassembly,
    stack: Seq<(u32, FrameInfo)>,
    start: int,
    count: int,
) -> Seq<StackFrameView> {
    let left = stack.len() - start;
    let len = if count < left {
        count
    } else {
        left
    };
    Seq::new(
        if len < 0 {
            0
        } else {
            len as nat
        },
        |k: int| frame_view(show, (start + k) as i64, stack[start + k].0, stack[start + k].1),
    )
}

/// Whether `states` are the states of a trace that asks for one frame after the other, until it has
/// as many as it is to have or there are no more.
pub open spec fn whole_trace(
    show: ShowDisassembly,
    stack: Seq<(u32, FrameInfo)>,
    start: int,
    count: int,
    states: Seq<StackTrace>,
) -> bool {
    &&& states.len() > 0
    &&& states[0].walk.next == start
    &&& states[0].walk.end == start + count
    &&& states[0].stack_frames@.len() == 0
    &&& forall|i: int|
        0 <= i < states.len() - 1 ==> (#[trigger] states[i]).walk.next < states[i].walk.end
            && frame_taken(
            states[i],
            show,
            frame_at(stack, states[i].walk.next as u32),
            states[i + 1],
        )
    &&& states.last().walk.next >= states.last().walk.end
}

proof fn lemma_trace_so_far(
    show: ShowDisassembly,
    stack: Seq<(u32, FrameInfo)>,
    start: int,
    count: int,
    states: Seq<StackTrace>,
    n: int,
)
    requires
        whole_trace(show, stack, start, count, states),
        stack.len() <= u32::MAX,
        0 <= start <= u32::MAX,
        count >= 0,
        0 <= n < states.len(),
    ensures
        ({
            let trace = states[n];
            let taken = trace.walk.next - start;
            &&& 0 <= taken <= count
            &&& taken == 0 || trace.walk.next <= stack.len()
            &&& trace.stack_frames.deep_view() == page(show, stack, start, taken)
            &&& trace.walk.end == start + count || (trace.walk.end == trace.walk.next
                && trace.walk.next >= stack.len())
        }),
    decreases n,
{
    let trace = states[n];
    assert(trace.stack_frames.deep_view().len() == trace.stack_frames@.len());
    if n == 0 {
        assert(trace.stack_frames.deep_view() =~= page(show, stack, start, 0));
    } else {
        lemma_trace_so_far(show, stack, start, count, states, n - 1);
        let before = states[n - 1];
        assert(before.walk.next < before.walk.end && frame_taken(
            before,
            show,
            frame_at(stack, before.walk.next as u32),
            states[n - 1 + 1],
        ));
        let taken = trace.walk.next - start;
        assert(trace.stack_frames.deep_view() =~= page(show, stack, start, taken));
    }
}

/// A whole trace holds the frames from its first number on: as many as it was asked for, or as
/// there are.
pub proof fn law_whole_trace_is_a_page(
    show: ShowDisassembly,
    stack: Seq<(u32, FrameInfo)>,
    start: int,
    count: int,
    states: Seq<StackTrace>,
)
    requires
        whole_trace(show, stack, start, count, states),
        stack.len() <= u32::MAX,
        0 <= start <= u32::MAX,
    ensures
        states.last().stack_frames.deep_view() == page(show, stack, start, count),
{
    let trace = states.last();
    if count < 0 {
        if states.len() > 1 {
            assert(states[0].walk.next < states[0].walk.end);
        }
        assert(trace.stack_frames.deep_view() =~= page(show, stack, start, count));
    } else {
        lemma_trace_so_far(show, stack, start, count, states, states.len() - 1);
        assert(page(show, stack, start, trace.walk.next - start) =~= page(
            show,
            stack,
            start,
            count,
        ));
    }
}

/// Two pages that adjoin hold what one page over both holds.
pub proof fn law_adjoining_pages_agree(
    show: ShowDisassembly,
    stack: Seq<(u32, FrameInfo)>,
    start: int,
    first: int,
    second: int,
)
    requires
        0 <= start,
        0 <= first,
        0 <= second,
    ensures
        page(show, stack, start, first) + page(show, stack, start + first, second) == page(
            show,
            stack,
            start,
            first + second,
        ),
{
    assert(page(show, stack, start, first) + page(show, stack, start + first, second) =~= page(
        show,
        stack,
        start,
        first + second,
    ));
}

/// A frame whose function is known is shown under the name of the function, however and wherever it
/// is shown. Only a frame without one is named by its address in its file.
pub proof fn law_frames_are_named_by_their_function(
    show: ShowDisassembly,
    index: i64,
    handle: u32,
    info: FrameInfo,
)
    ensures
        info.function_name matches Some(name) ==> frame_view(show, index, handle, info).name
            == name@,
        info.function_name is None ==> frame_view(show, index, handle, info).name == hex_upper(
            info.file_address as nat,
        ),
{
}

/// Whatever a frame is shown in, it is known by its handle, tells the address at which it stands in
/// memory, and the module that it is in.
pub proof fn law_frames_tell_where_they_are(
    show: ShowDisassembly,
    index: i64,
    handle: u32,
    info: FrameInfo,
)
    ensures
        ({
            let frame = frame_view(show, index, handle, info);
            &&& frame.id == handle
            &&& frame.instruction_pointer_reference == Some(address_text(info.load_address as nat))
            &&& frame.module_id is Some <==> info.module_id is Some
            &&& info.module_id matches Some(id) ==> frame.module_id == Some(id@)
        }),
{
}

/// Left to itself the session shows a frame in disassembly just where it has no local source file.
/// Otherwise all frames are, or none.
pub proof fn law_disassembly_stands_in_for_source(line: FrameLine)
    ensures
        shown_in_disassembly(ShowDisassembly::Always, line),
        !shown_in_disassembly(ShowDisassembly::Never, line),
        shown_in_disassembly(ShowDisassembly::Auto, line) <==> !(line is Known && line->local is Some),
{
}

/// A frame stands at its line and column of its local source file where that is shown, at the first
/// column of its line of the disassembly where that is shown and could be had, and else nowhere.
pub proof fn law_frames_stand_in_source_or_disassembly(
    show: ShowDisassembly,
    index: i64,
    handle: u32,
    info: FrameInfo,
)
    ensures
        ({
            let frame = frame_view(show, index, handle, info);
            let local = info.line is Known && info.line->local is Some;
            &&& show != ShowDisassembly::Always && local ==> {
                &&& frame.source is Some
                &&& frame.source->0.name == Some(info.line->local->0.name@)
                &&& frame.source->0.path == Some(info.line->local->0.path@)
                &&& frame.source->0.source_reference is None
                &&& frame.line == info.line->line
                &&& frame.column == info.line->column
            }
            &&& show == ShowDisassembly::Always || show == ShowDisassembly::Auto && !local ==> {
                &&& frame.source is Some <==> info.disassembly is Some
                &&& frame.column == 0
                &&& info.disassembly is None ==> frame.line == 0
                &&& info.disassembly matches Some(d) ==> {
                    &&& frame.source->0.name == Some(d.source_name@)
                    &&& frame.source->0.path is None
                    &&& frame.source->0.source_reference is Some
                    &&& frame.source->0.source_reference->0 == d.handle
                    &&& frame.line == d.line
                }
            }
            &&& show == ShowDisassembly::Never && !local ==> {
                &&& frame.source is None
                &&& frame.line == 0
                &&& frame.column == 0
            }
        }),
{
}

/// A frame is marked as of less interest just where it is shown in disassembly for want of a source
/// file and is not the first.
pub proof fn law_later_disassembly_is_of_less_interest(
    show: ShowDisassembly,
    index: i64,
    handle: u32,
    info: FrameInfo,
)
    ensures
        ({
            let hint = frame_view(show, index, handle, info).presentation_hint;
            &&& hint is Some <==> show == ShowDisassembly::Auto && index > 0 && !(info.line is Known
                && info.line->local is Some)
            &&& hint is Some ==> hint->0 == "subtle"@
        }),
{
}

/// The threads are told in the order of the debugger, none is left out, and each is called by its
/// index and its identifier, with its name in quotes where it has one.
pub proof fn law_threads_are_told_in_order(threads: Seq<ThreadInfo>, i: int)
    requires
        0 <= i < threads.len(),
    ensures
        thread_views(threads).len() == threads.len(),
        threads[i].thread_id <= i64::MAX ==> thread_views(threads)[i].id == threads[i].thread_id,
        ({
            let t = threads[i];
            let title = thread_views(threads)[i].name;
            let start = decimal(t.index_id as nat) + ": tid="@ + decimal(t.thread_id as nat);
            &&& t.name is None ==> title == start
            &&& t.name matches Some(name) ==> title == start + " \""@ + name@ + "\""@
        }),
{
}

/// A thread is missing just where it was not found. While the debuggee runs nobody is to blame for
/// that.
pub proof fn law_missing_threads_are_told(found: bool, running: bool, r: Result<(), Error>)
    requires
        thread_checked(found, running, r),
    ensures
        r is Ok <==> found,
        r matches Err(e) ==> {
            &&& running ==> e.blame == Blame::Nobody && e.message@
                == "Not available while the process is running."@
            &&& !running ==> e.blame == Blame::Internal && e.message@ == "Invalid thread_id."@
        },
{
}

/// Without a start a walk starts at zero, and without a number it goes as far as it can. It looks
/// under each number before its end, once and in order, and ends at a number without anything.
pub proof fn law_walks_look_at_each_number(
    start: Option<i64>,
    count: Option<i64>,
    walk: Walk,
)
    ensures
        start is None ==> walk_start(start) == 0,
        start matches Some(n) ==> walk_start(start) == n,
        count is None ==> walk_count(count) == i64::MAX,
        count matches Some(n) ==> walk_count(count) == n,
        walk.number() is Some <==> walk.next < walk.end,
        walk.number() is Some && 0 <= walk.next <= u32::MAX ==> walk.number()->0 == walk.next,
        walk.next < walk.end ==> walk.beyond(true).next == walk.next + 1 && walk.beyond(true).end
            == walk.end,
        walk.beyond(false).number() is None,
{
}

/// A frame of a thread is remembered by the thread and its own number: no two frames of a stop share
/// that.
pub proof fn law_frames_are_remembered_by_number(
    thread_index: u32,
    index: i64,
    other_thread: u32,
    other_index: i64,
)
    ensures
        frame_key_text(thread_index, index) == "["@ + decimal(thread_index as nat) + ","@
            + signed_decimal(index as int) + "]"@,
        frame_key_text(thread_index, index) == frame_key_text(other_thread, other_index)
            ==> thread_index == other_thread && index == other_index,
{
    let a = frame_key_text(thread_index, index);
    let b = frame_key_text(other_thread, other_index);
    if a == b {
        reveal_strlit("[");
        reveal_strlit(",");
        reveal_strlit("]");
        let p = decimal(thread_index as nat);
        let q = decimal(other_thread as nat);
        law_decimal_writes_the_number(thread_index as nat);
        law_decimal_writes_the_number(other_thread as nat);
        law_only_negative_numbers_have_a_minus(index as int);
        law_only_negative_numbers_have_a_minus(other_index as int);
        assert(a[p.len() as int + 1] == ',');
        assert(b[q.len() as int + 1] == ',');
        if p.len() < q.len() {
            assert(b[p.len() as int + 1] == q[p.len() as int]);
        }
        if q.len() < p.len() {
            assert(a[q.len() as int + 1] == p[q.len() as int]);
        }
        assert forall|i: int| 0 <= i < p.len() implies p[i] == q[i] by {
            assert(a[i + 1] == p[i]);
            assert(b[i + 1] == q[i]);
        }
        assert(p =~= q);
        let x = signed_decimal(index as int);
        let y = signed_decimal(other_index as int);
        assert(a.subrange(p.len() as int + 2, a.len() - 1) =~= x);
        assert(b.subrange(q.len() as int + 2, b.len() - 1) =~= y);
    }
}

/// Why a thread stopped is told by the debugger's own name for the reason, with its description, for
/// a thread that was found.
pub proof fn law_stop_reasons_are_told_by_name(
    found: bool,
    running: bool,
    reason: StopReason,
    description: Seq<char>,
    r: Result<ExceptionInfo, Error>,
)
    requires
        exception_told(found, running, reason, description, r),
    ensures
        r is Ok <==> found,
        r matches Err(e) ==> thread_checked(false, running, Err(e)),
        r matches Ok(info) ==> {
            &&& info.description is Some
            &&& info.description->0@ == description
            &&& info.break_mode == ExceptionBreakMode::Always
            &&& reason is Invalid ==> info.exception_id@ == "Invalid"@
            &&& reason is NoReason ==> info.exception_id@ == "None"@
            &&& reason is Trace ==> info.exception_id@ == "Trace"@
            &&& reason is Breakpoint ==> info.exception_id@ == "Breakpoint"@
            &&& reason is Watchpoint ==> info.exception_id@ == "Watchpoint"@
            &&& reason is Signal ==> info.exception_id@ == "Signal"@
            &&& reason is Exception ==> info.exception_id@ == "Exception"@
            &&& reason is PlanComplete ==> info.exception_id@ == "PlanComplete"@
            &&& reason matches StopReason::Other(name) ==> info.exception_id@ == name@
        },
{
}

/// A disassembly is shown as it is, under a type of its own.
pub proof fn law_disassembly_is_shown_as_it_is(content: String, r: SourceResponse)
    requires
        source_answered(content, r),
    ensures
        r.content@ == content@,
        r.mime_type is Some,
        r.mime_type->0@ == "text/x-lldb.disassembly"@,
{
}

/// An expression is evaluated in its frame where it has one, or else in the selected thread of a
/// process, or else in the target.
pub proof fn law_expressions_prefer_their_frame(has_frame: bool, process_valid: bool)
    ensures
        context_for(has_frame, process_valid) == ContextChoice::Frame <==> has_frame,
        context_for(has_frame, process_valid) == ContextChoice::SelectedThread <==> !has_frame
            && process_valid,
        context_for(has_frame, process_valid) == ContextChoice::SelectedTarget <==> !has_frame
            && !process_valid,
{
}

/// A trace starts just where its thread was found, at the frame and with the number of frames that
/// were asked for.
pub proof fn law_traces_start_as_asked(
    found: bool,
    running: bool,
    start_frame: Option<i64>,
    levels: Option<i64>,
    r: Result<StackTrace, Error>,
)
    requires
        trace_started(found, running, start_frame, levels, r),
    ensures
        r is Ok <==> found,
        r matches Ok(trace) ==> {
            &&& trace.stack_frames@.len() == 0
            &&& start_frame matches Some(n) ==> trace.walk.next == n
            &&& start_frame is None ==> trace.walk.next == 0
            &&& levels matches Some(n) ==> trace.walk.end - trace.walk.next == n
            &&& levels is None ==> trace.walk.end - trace.walk.next == i64::MAX
        },
        r matches Err(e) ==> thread_checked(false, running, Err(e)),
{
}

/// The view of a thread or a frame has each of its parts, written as it is.
pub proof fn law_threads_and_frames_are_seen_as_they_are(thread: Thread, frame: StackFrame)
    ensures
        thread.deep_view().id == thread.id,
        thread.deep_view().name == thread.name@,
        frame.deep_view().id == frame.id,
        frame.deep_view().name == frame.name@,
        frame.deep_view().line == frame.line,
        frame.deep_view().column == frame.column,
        frame.deep_view().source is Some == frame.source is Some,
        frame.source matches Some(source) ==> frame.deep_view().source->0 == source.deep_view(),
        frame.deep_view().instruction_pointer_reference is Some
            == frame.instruction_pointer_reference is Some,
        frame.instruction_pointer_reference matches Some(text)
            ==> frame.deep_view().instruction_pointer_reference->0 == text@,
        frame.deep_view().module_id is Some == frame.module_id is Some,
        frame.module_id matches Some(text) ==> frame.deep_view().module_id->0 == text@,
        frame.deep_view().presentation_hint is Some == frame.presentation_hint is Some,
        frame.presentation_hint matches Some(text) ==> frame.deep_view().presentation_hint->0
            == text@,
{
}

}
