//! What appears in the console: messages, the output of the debugger, and scripts of commands.
use vstd::prelude::*;
use vstd::utf8::{
    decode_utf8, decode_utf8_split, is_char_boundary, is_char_boundary_iff_not_is_continuation_byte,
    valid_utf8, valid_utf8_concat, valid_utf8_split,
};

use crate::error::{says, Blame, Error};
use crate::outside::{json_text, json_to_string, lossy_text, text_from_bytes};
use crate::protocol::{Event, EventView};
use crate::session::{Action, ActionView, DebugSession};
use crate::text::{hex_lower, push_hex_lower};

verus! {

/// The size of the buffer for a line that is not complete, and of a piece that is read at once.
pub const CONSOLE_BUFFER_SIZE: usize = 1024;

/// A message on a line of its own.
pub open spec fn message_event(category: Option<Seq<char>>, text: Seq<char>) -> EventView {
    EventView::Output { category, output: text + "\n"@ }
}

/// Output of the debuggee or the debugger, as it came.
pub open spec fn output_event(category: Seq<char>, bytes: Seq<u8>) -> EventView {
    EventView::Output { category: Some(category), output: lossy_text(bytes) }
}

/// A message on a line of its own.
pub fn console_message_impl(category: Option<&str>, output: &str) -> (e: Event)
    ensures
        e.deep_view() == message_event(
            match category {
                Some(c) => Some(c@),
                None => None,
            },
            output@,
        ),
{
    let text: String = output.to_owned().concat("\n");
    let category: Option<String> = match category {
        Some(c) => Some(c.to_owned()),
        None => None,
    };
    Event::Output { category, output: text }
}

/// An ordinary message.
pub open spec fn ordinary_message(text: Seq<char>) -> EventView {
    message_event(Some("console"@), text)
}

/// A message about an error.
pub open spec fn error_message(text: Seq<char>) -> EventView {
    message_event(Some("stderr"@), text)
}

/// An ordinary message.
pub fn console_message(output: &str) -> (e: Event)
    ensures
        e.deep_view() == ordinary_message(output@),
{
    console_message_impl(Some("console"), output)
}

/// A message about an error.
pub fn console_error(output: &str) -> (e: Event)
    ensures
        e.deep_view() == error_message(output@),
{
    console_message_impl(Some("stderr"), output)
}

/// Output of the debuggee or the debugger that is text in UTF-8.
pub open spec fn text_event(category: Seq<char>, bytes: Seq<u8>) -> EventView {
    EventView::Output { category: Some(category), output: decode_utf8(bytes) }
}

/// Output in a category, with what is not UTF-8 replaced.
pub fn output_bytes(category: &str, bytes: &[u8]) -> (e: Event)
    ensures
        e.deep_view() == output_event(category@, bytes@),
        valid_utf8(bytes@) ==> e.deep_view() == text_event(category@, bytes@),
{
    Event::Output { category: Some(category.to_owned()), output: text_from_bytes(bytes) }
}

/// How many bytes of `data` make up complete lines: all up to the last line feed.
pub open spec fn complete_lines(data: Seq<u8>) -> nat
    decreases data.len(),
{
    if data.len() == 0 || data.last() == 10 {
        data.len()
    } else {
        complete_lines(data.drop_last())
    }
}

/// What leaves the buffer when `data` arrives. Complete lines leave at once. A line that does not
/// fit into the buffer leaves in pieces.
pub open spec fn console_emitted(pending: Seq<u8>, data: Seq<u8>) -> Seq<u8> {
    let n = complete_lines(data);
    if n > 0 {
        pending + data.take(n as int)
    } else if data.len() >= CONSOLE_BUFFER_SIZE {
        pending + data
    } else if pending.len() + data.len() > CONSOLE_BUFFER_SIZE {
        pending
    } else {
        Seq::empty()
    }
}

/// What stays in the buffer when `data` arrives.
pub open spec fn console_kept(pending: Seq<u8>, data: Seq<u8>) -> Seq<u8> {
    let n = complete_lines(data);
    if n > 0 {
        data.skip(n as int)
    } else if data.len() >= CONSOLE_BUFFER_SIZE {
        Seq::empty()
    } else if pending.len() + data.len() > CONSOLE_BUFFER_SIZE {
        data
    } else {
        pending + data
    }
}

/// The event for what leaves the buffer when `data` arrives.
pub open spec fn shown_event(pending: Seq<u8>, data: Seq<u8>) -> Option<EventView> {
    if console_emitted(pending, data).len() > 0 {
        Some(output_event("console"@, console_emitted(pending, data)))
    } else {
        None
    }
}

/// Collects the output of the debugger into lines.
#[derive(Debug)]
pub struct ConsoleBuffer {
    pub pending: Vec<u8>,
}

impl ConsoleBuffer {
    /// The buffer holds a part of a line.
    pub open spec fn wf(&self) -> bool {
        self.pending@.len() <= CONSOLE_BUFFER_SIZE && !self.pending@.contains(10u8)
    }

    pub fn new() -> (b: ConsoleBuffer)
        ensures
            b.wf(),
            b.pending@ == Seq::<u8>::empty(),
    {
        ConsoleBuffer { pending: Vec::new() }
    }

    /// Takes in a piece of output. Gives back what is to be shown, if anything.
    pub fn write(&mut self, data: &[u8]) -> (shown: Option<Event>)
        requires
            old(self).wf(),
            data@.len() <= CONSOLE_BUFFER_SIZE,
        ensures
            final(self).wf(),
            final(self).pending@ == console_kept(old(self).pending@, data@),
            shown.deep_view() == shown_event(old(self).pending@, data@),
            shown is Some && valid_utf8(console_emitted(old(self).pending@, data@))
                ==> shown.deep_view() == Some(
                text_event("console"@, console_emitted(old(self).pending@, data@)),
            ),
    {
        let ghost before = self.pending@;
        let len: usize = data.len();
        let mut n: usize = len;
        proof {
            assert(data@.take(len as int) =~= data@);
        }
        while n > 0 && data[n - 1] != 10
            invariant
                n <= len == data@.len(),
                complete_lines(data@) == complete_lines(data@.take(n as int)),
                forall|i: int| n <= i < len ==> data@[i] != 10,
            decreases n,
        {
            proof {
                assert(data@.take(n as int).drop_last() =~= data@.take(n as int - 1));
            }
            n = n - 1;
        }
        proof {
            lemma_kept_is_partial(before, data@, n as int);
        }
        let mut emitted: Vec<u8> = Vec::new();
        let mut kept: Vec<u8> = Vec::new();
        if n > 0 {
            copy_bytes(&mut emitted, self.pending.as_slice(), 0, self.pending.len());
            copy_bytes(&mut emitted, data, 0, n);
            copy_bytes(&mut kept, data, n, len);
        } else if len >= CONSOLE_BUFFER_SIZE {
            copy_bytes(&mut emitted, self.pending.as_slice(), 0, self.pending.len());
            copy_bytes(&mut emitted, data, 0, len);
        } else if len > CONSOLE_BUFFER_SIZE - self.pending.len() {
            copy_bytes(&mut emitted, self.pending.as_slice(), 0, self.pending.len());
            copy_bytes(&mut kept, data, 0, len);
        } else {
            copy_bytes(&mut kept, self.pending.as_slice(), 0, self.pending.len());
            copy_bytes(&mut kept, data, 0, len);
        }
        proof {
            assert(emitted@ =~= console_emitted(before, data@));
            assert(kept@ =~= console_kept(before, data@));
        }
        self.pending = kept;
        if emitted.len() > 0 {
            Some(output_bytes("console", emitted.as_slice()))
        } else {
            None
        }
    }
}

proof fn lemma_kept_is_partial(pending: Seq<u8>, data: Seq<u8>, n: int)
    requires
        pending.len() <= CONSOLE_BUFFER_SIZE,
        data.len() <= CONSOLE_BUFFER_SIZE,
        !pending.contains(10u8),
        0 <= n <= data.len(),
        complete_lines(data) == complete_lines(data.take(n)),
        forall|i: int| n <= i < data.len() ==> data[i] != 10,
        n == 0 || data[n - 1] == 10,
    ensures
        complete_lines(data) == n,
        console_kept(pending, data).len() <= CONSOLE_BUFFER_SIZE,
        !console_kept(pending, data).contains(10u8),
{
    if n > 0 {
        assert(data.take(n).last() == data[n - 1]);
    }
    let kept = console_kept(pending, data);
    assert forall|i: int| 0 <= i < kept.len() implies kept[i] != 10u8 by {
        if n == 0 && pending.len() + data.len() <= CONSOLE_BUFFER_SIZE && i < pending.len() {
            assert(kept[i] == pending[i] || kept[i] == data[i]);
            assert(pending.contains(pending[i]));
        }
    }
}

fn copy_bytes(out: &mut Vec<u8>, from: &[u8], start: usize, end: usize)
    requires
        start <= end <= from@.len(),
    ensures
        final(out)@ == old(out)@ + from@.subrange(start as int, end as int),
{
    let mut i: usize = start;
    let ghost before = out@;
    while i < end
        invariant
            start <= i <= end <= from@.len(),
            out@ == before + from@.subrange(start as int, i as int),
        decreases end - i,
    {
        out.push(from[i]);
        i = i + 1;
        proof {
            assert(out@ =~= before + from@.subrange(start as int, i as int));
        }
    }
}

/// No output is lost, repeated or reordered: what is shown and what is kept are together what was
/// kept before and what arrived.
pub proof fn law_console_keeps_every_byte(pending: Seq<u8>, data: Seq<u8>)
    ensures
        console_emitted(pending, data) + console_kept(pending, data) == pending + data,
{
    lemma_complete_lines(data);
    assert(console_emitted(pending, data) + console_kept(pending, data) =~= pending + data);
}

/// All the bytes of some pieces, one piece after the other.
pub open spec fn joined(pieces: Seq<Seq<u8>>) -> Seq<u8>
    decreases pieces.len(),
{
    if pieces.len() == 0 {
        Seq::empty()
    } else {
        joined(pieces.drop_last()) + pieces.last()
    }
}

/// What an empty buffer keeps after some pieces.
pub open spec fn kept_after(pieces: Seq<Seq<u8>>) -> Seq<u8>
    decreases pieces.len(),
{
    if pieces.len() == 0 {
        Seq::empty()
    } else {
        console_kept(kept_after(pieces.drop_last()), pieces.last())
    }
}

/// What is shown in all for some pieces, by a buffer that was empty.
pub open spec fn shown_after(pieces: Seq<Seq<u8>>) -> Seq<u8>
    decreases pieces.len(),
{
    if pieces.len() == 0 {
        Seq::empty()
    } else {
        shown_after(pieces.drop_last()) + console_emitted(
            kept_after(pieces.drop_last()),
            pieces.last(),
        )
    }
}

/// Over any number of pieces, the output that is shown and the part of a line that is kept are
/// together all the output that arrived.
pub proof fn law_console_shows_all_output(pieces: Seq<Seq<u8>>)
    ensures
        shown_after(pieces) + kept_after(pieces) == joined(pieces),
    decreases pieces.len(),
{
    if pieces.len() == 0 {
        assert(shown_after(pieces) + kept_after(pieces) =~= joined(pieces));
    } else {
        let rest = pieces.drop_last();
        let kept = kept_after(rest);
        law_console_shows_all_output(rest);
        law_console_keeps_every_byte(kept, pieces.last());
        assert(shown_after(pieces) + kept_after(pieces) =~= shown_after(rest) + (console_emitted(
            kept,
            pieces.last(),
        ) + console_kept(kept, pieces.last())));
        assert(shown_after(rest) + (kept + pieces.last()) =~= joined(rest) + pieces.last());
    }
}

proof fn lemma_complete_lines(data: Seq<u8>)
    ensures
        complete_lines(data) <= data.len(),
        complete_lines(data) > 0 ==> data[complete_lines(data) - 1] == 10,
        forall|i: int| complete_lines(data) <= i < data.len() ==> data[i] != 10,
    decreases data.len(),
{
    if data.len() > 0 && data.last() != 10 {
        lemma_complete_lines(data.drop_last());
        assert forall|i: int| complete_lines(data) <= i < data.len() implies data[i] != 10 by {
            if i < data.len() - 1 {
                assert(data.drop_last()[i] == data[i]);
            }
        }
    }
}

/// Where a line feed arrives, what is shown ends with a complete line, and nothing complete is
/// held back.
pub proof fn law_complete_lines_are_shown_at_once(pending: Seq<u8>, data: Seq<u8>)
    requires
        data.contains(10u8),
    ensures
        console_emitted(pending, data).len() > 0,
        console_emitted(pending, data).last() == 10,
        !console_kept(pending, data).contains(10u8),
{
    lemma_complete_lines(data);
    let n = complete_lines(data);
    let i = choose|i: int| 0 <= i < data.len() && data[i] == 10u8;
    assert(n > i);
    let kept = console_kept(pending, data);
    assert forall|j: int| 0 <= j < kept.len() implies kept[j] != 10u8 by {
        assert(kept[j] == data[n + j]);
    }
}

/// Output in UTF-8 is cut between characters where a line ends: what is shown and what is kept are
/// UTF-8 again, and together they are the text that arrived.
pub proof fn law_lines_are_cut_between_characters(pending: Seq<u8>, data: Seq<u8>)
    requires
        data.contains(10u8),
        valid_utf8(pending + data),
    ensures
        valid_utf8(console_emitted(pending, data)),
        valid_utf8(console_kept(pending, data)),
        decode_utf8(console_emitted(pending, data)) + decode_utf8(console_kept(pending, data))
            == decode_utf8(pending + data),
{
    lemma_complete_lines(data);
    let all = pending + data;
    let i = choose|i: int| 0 <= i < data.len() && data[i] == 10u8;
    let cut = (pending.len() + complete_lines(data)) as int;
    assert(complete_lines(data) > i);
    assert(all[cut - 1] == 10u8);
    is_char_boundary_iff_not_is_continuation_byte(all, cut - 1);
    valid_utf8_split(all, cut - 1);
    let head = all.subrange(0, cut - 1);
    let tail = all.subrange(cut - 1, all.len() as int);
    assert(tail[0] == 10u8);
    reveal_with_fuel(is_char_boundary, 2);
    assert(is_char_boundary(tail, 1));
    valid_utf8_split(tail, 1);
    decode_utf8_split(tail, 1);
    let feed = tail.subrange(0, 1);
    let emitted = console_emitted(pending, data);
    let kept = console_kept(pending, data);
    valid_utf8_concat(head, feed);
    assert(emitted =~= head + feed);
    assert(kept =~= tail.subrange(1, tail.len() as int));
    decode_utf8_split(all, cut - 1);
    assert(emitted[cut - 1] == 10u8);
    is_char_boundary_iff_not_is_continuation_byte(emitted, cut - 1);
    decode_utf8_split(emitted, cut - 1);
    assert(emitted.subrange(0, cut - 1) =~= head);
    assert(emitted.subrange(cut - 1, emitted.len() as int) =~= feed);
    assert(decode_utf8(emitted) + decode_utf8(kept) =~= decode_utf8(all));
}

/// What a command of the debugger did.
#[derive(Debug)]
pub struct CommandResult {
    pub succeeded: bool,
    pub output: String,
    pub error: String,
}

/// Whose commands are run.
#[derive(Clone, Copy, Debug, PartialEq, Eq, Structural)]
pub enum ScriptKind {
    /// Commands that the user wrote, whose output is shown.
    User,
    /// Commands that make the debuggee run backwards.
    Reverse,
}

/// Commands that are run one after the other, until one fails.
#[derive(Debug)]
pub struct CommandScript {
    pub kind: ScriptKind,
    pub commands: Vec<String>,
    pub next: usize,
    /// The error with which the script ends, once a command has failed.
    pub failure: Option<Error>,
}

/// The messages after a command.
pub open spec fn command_events(kind: ScriptKind, result: CommandResult) -> Seq<EventView> {
    let shown = if kind == ScriptKind::User && result.output@.len() > 0 {
        seq![message_event(Some("console"@), result.output@)]
    } else {
        Seq::empty()
    };
    if result.succeeded {
        shown
    } else {
        shown.push(message_event(Some("stderr"@), result.error@))
    }
}

/// Whether `e` is the error with which a script ends when a command has failed: the user is to blame
/// for commands of the user.
pub open spec fn script_error(kind: ScriptKind, result: CommandResult, e: Error) -> bool {
    says(
        e,
        if kind == ScriptKind::User {
            Blame::User
        } else {
            Blame::Internal
        },
        result.error@,
    )
}

/// Whether `after` is the script `before` once the command that was next has done this.
pub open spec fn script_advanced(
    before: CommandScript,
    result: CommandResult,
    after: CommandScript,
) -> bool {
    &&& after.kind == before.kind
    &&& after.commands == before.commands
    &&& after.next == before.next + 1
    &&& match after.failure {
        None => result.succeeded,
        Some(e) => !result.succeeded && script_error(before.kind, result, e),
    }
}

/// The message that a script of the user starts.
pub open spec fn script_message(script_name: Seq<char>) -> EventView {
    ordinary_message("Executing script: "@ + script_name)
}

/// Whether a script starts with its first command.
pub open spec fn script_fresh(script: CommandScript) -> bool {
    script.next == 0 && script.failure is None
}

/// What is done around a script once it has ended. Commands of the user may have changed the mode
/// of the debugger.
pub open spec fn end_actions(kind: ScriptKind) -> Seq<ActionView> {
    match kind {
        ScriptKind::User => seq![ActionView::SetAsyncMode],
        ScriptKind::Reverse => Seq::empty(),
    }
}

impl CommandScript {
    /// Starts on commands of the user. The message that says so comes first.
    pub fn exec_commands(script_name: &str, commands: Vec<String>) -> (r: (CommandScript, Event))
        ensures
            script_fresh(r.0),
            r.0.kind == ScriptKind::User,
            r.0.commands == commands,
            r.1.deep_view() == script_message(script_name@),
    {
        let message: String = "Executing script: ".to_owned().concat(script_name);
        (
            CommandScript { kind: ScriptKind::User, commands, next: 0, failure: None },
            console_message(message.as_str()),
        )
    }

    /// Starts on commands that run the debuggee backwards.
    pub fn reverse_exec(commands: Vec<String>) -> (r: CommandScript)
        ensures
            script_fresh(r),
            r.kind == ScriptKind::Reverse,
            r.commands == commands,
    {
        CommandScript { kind: ScriptKind::Reverse, commands, next: 0, failure: None }
    }

    /// The command to run next: none when all have run, or when one has failed.
    pub open spec fn upcoming(&self) -> Option<Seq<char>> {
        if self.failure is None && self.next < self.commands@.len() {
            Some(self.commands@[self.next as int]@)
        } else {
            None
        }
    }

    /// The command to run next.
    pub fn next_command(&self) -> (r: Option<String>)
        ensures
            r.deep_view() == self.upcoming(),
    {
        if self.failure.is_none() && self.next < self.commands.len() {
            Some(self.commands[self.next].clone())
        } else {
            None
        }
    }

    /// Takes in what the command did that was next. A failure is shown, and ends the script.
    pub fn command_done(&mut self, result: &CommandResult) -> (events: Vec<Event>)
        requires
            old(self).upcoming() is Some,
        ensures
            script_advanced(*old(self), *result, *final(self)),
            events.deep_view() == command_events(old(self).kind, *result),
    {
        let mut events: Vec<Event> = Vec::new();
        let user: bool = match self.kind {
            ScriptKind::User => true,
            ScriptKind::Reverse => false,
        };
        if user && !result.output.as_str().is_empty() {
            events.push(console_message(result.output.as_str()));
        }
        let count: usize = self.commands.len();
        assert(self.next < count);
        self.next = self.next + 1;
        if !result.succeeded {
            events.push(console_error(result.error.as_str()));
            self.failure = Some(
                Error {
                    blame: if user { Blame::User } else { Blame::Internal },
                    message: result.error.clone(),
                },
            );
        }
        proof {
            assert(events.deep_view() =~= command_events(old(self).kind, *result));
        }
        events
    }

    /// Leaves a script that has ended. Whatever came of commands of the user, the debugger is
    /// asynchronous afterwards.
    pub fn script_ended(self) -> (r: (Vec<Action>, Result<(), Error>))
        requires
            self.upcoming() is None,
        ensures
            r.0.deep_view() == end_actions(self.kind),
            match r.1 {
                Ok(()) => self.failure is None,
                Err(e) => self.failure == Some(e),
            },
    {
        let mut actions: Vec<Action> = Vec::new();
        match self.kind {
            ScriptKind::User => {
                actions.push(Action::SetAsyncMode);
            },
            ScriptKind::Reverse => {},
        }
        proof {
            assert(actions.deep_view() =~= end_actions(self.kind));
        }
        match self.failure {
            None => (actions, Ok(())),
            Some(e) => (actions, Err(e)),
        }
    }
}

/// Whether `states` are the states of a script that runs from its start to its end, where `results`
/// is what its commands do.
pub open spec fn whole_script(results: Seq<CommandResult>, states: Seq<CommandScript>) -> bool {
    &&& states.len() > 0
    &&& script_fresh(states[0])
    &&& results.len() == states[0].commands@.len()
    &&& forall|i: int|
        0 <= i < states.len() - 1 ==> (#[trigger] states[i]).upcoming() is Some && script_advanced(
            states[i],
            results[i],
            states[i + 1],
        )
    &&& states.last().upcoming() is None
}

proof fn lemma_script_so_far(results: Seq<CommandResult>, states: Seq<CommandScript>, n: int)
    requires
        whole_script(results, states),
        0 <= n < states.len(),
    ensures
        states[n].kind == states[0].kind,
        states[n].commands == states[0].commands,
        states[n].next == n,
        n <= results.len(),
        forall|i: int| 0 <= i < n - 1 ==> (#[trigger] results[i]).succeeded,
        n > 0 ==> (states[n].failure is None <==> results[n - 1].succeeded),
        states[n].failure matches Some(e) ==> n > 0 && script_error(
            states[0].kind,
            results[n - 1],
            e,
        ),
    decreases n,
{
    if n > 0 {
        lemma_script_so_far(results, states, n - 1);
        let before = states[n - 1];
        assert(before.upcoming() is Some && script_advanced(
            before,
            results[n - 1],
            states[n - 1 + 1],
        ));
    }
}

/// A script runs its commands in order, each once, up to and with the first that fails and none
/// after it. It succeeds just where none fails, and otherwise ends with the error of that command.
pub proof fn law_script_runs_up_to_the_first_failure(
    results: Seq<CommandResult>,
    states: Seq<CommandScript>,
)
    requires
        whole_script(results, states),
    ensures
        ({
            let run = states.len() - 1;
            &&& forall|i: int|
                0 <= i < run ==> (#[trigger] states[i]).upcoming() == Some(
                    states[0].commands@[i]@,
                )
            &&& match states.last().failure {
                None => run == results.len() && forall|i: int|
                    0 <= i < run ==> (#[trigger] results[i]).succeeded,
                Some(e) => {
                    &&& 0 < run <= results.len()
                    &&& !results[run - 1].succeeded
                    &&& forall|i: int| 0 <= i < run - 1 ==> (#[trigger] results[i]).succeeded
                    &&& script_error(states[0].kind, results[run - 1], e)
                },
            }
        }),
{
    let run = states.len() - 1;
    lemma_script_so_far(results, states, run);
    assert forall|i: int| 0 <= i < run implies (#[trigger] states[i]).upcoming() == Some(
        states[0].commands@[i]@,
    ) by {
        lemma_script_so_far(results, states, i);
    }
}

/// A command that sends a packet to the debug server.
pub open spec fn packet(body: Seq<char>) -> Seq<char> {
    "process plugin packet send "@ + body
}

/// The commands that run the thread backwards with the packet `mode`, and then bring the debugger
/// up to date by going one step back and forth.
pub open spec fn reverse_commands(thread_id: i64, mode: Seq<char>) -> Seq<Seq<char>> {
    seq![
        packet("Hc"@ + hex_lower((thread_id as u64) as nat)),
        packet(mode),
        packet("bs"@),
        "stepi"@,
    ]
}

fn make_reverse_commands(thread_id: i64, mode: &str) -> (r: Vec<String>)
    ensures
        r.deep_view() == reverse_commands(thread_id, mode@),
{
    let mut select: String = "Hc".to_owned();
    push_hex_lower(&mut select, #[verifier::truncate] (thread_id as u64));
    let mut r: Vec<String> = Vec::new();
    r.push("process plugin packet send ".to_owned().concat(select.as_str()));
    r.push("process plugin packet send ".to_owned().concat(mode));
    r.push("process plugin packet send ".to_owned().concat("bs"));
    r.push("stepi".to_owned());
    proof {
        assert(r.deep_view() =~= reverse_commands(thread_id, mode@));
    }
    r
}

/// The commands that step a thread back.
pub open spec fn step_back_texts(thread_id: i64) -> Seq<Seq<char>> {
    reverse_commands(thread_id, "bs"@)
}

/// The commands that run a thread backwards.
pub open spec fn reverse_continue_texts(thread_id: i64) -> Seq<Seq<char>> {
    reverse_commands(thread_id, "bc"@)
}

/// The commands that step a thread back.
pub fn step_back_commands(thread_id: i64) -> (r: Vec<String>)
    ensures
        r.deep_view() == step_back_texts(thread_id),
{
    make_reverse_commands(thread_id, "bs")
}

/// The commands that run a thread backwards.
pub fn reverse_continue_commands(thread_id: i64) -> (r: Vec<String>)
    ensures
        r.deep_view() == reverse_continue_texts(thread_id),
{
    make_reverse_commands(thread_id, "bc")
}

/// What comes from the scripts of the debugger. `E` is an event of any kind that a script made.
#[derive(Debug)]
pub enum PythonEvent<E> {
    SendDapEvent(E),
    DebuggerMessage { output: String, category: String },
}

/// What is sent to the client for what comes from the scripts.
#[derive(Debug)]
pub enum ScriptEvent<E> {
    /// The event of a script, as it is.
    Own(E),
    /// An event of the session.
    Message(Event),
}

/// Whether `r` is what is sent to the client for what comes from the scripts.
pub open spec fn script_event_sent<E>(event: PythonEvent<E>, r: ScriptEvent<E>) -> bool {
    match event {
        PythonEvent::SendDapEvent(own) => r == ScriptEvent::Own(own),
        PythonEvent::DebuggerMessage { output, category } => r matches ScriptEvent::Message(e)
            && e.deep_view() == message_event(Some(category@), output@),
    }
}

/// What to send to the client for what comes from the scripts.
pub fn handle_python_event<E>(event: PythonEvent<E>) -> (r: ScriptEvent<E>)
    ensures
        script_event_sent(event, r),
{
    match event {
        PythonEvent::SendDapEvent(own) => ScriptEvent::Own(own),
        PythonEvent::DebuggerMessage { output, category } => ScriptEvent::Message(
            console_message_impl(Some(category.as_str()), output.as_str()),
        ),
    }
}

/// The text to hand to the scripts for a message of the client.
pub open spec fn text_for_scripts(s: DebugSession, args: serde_json::Value) -> Option<Seq<char>> {
    if s.python_attached {
        Some(json_text(args))
    } else {
        None
    }
}

impl DebugSession {
    /// The text to hand to the scripts for a message of the client: none where no scripts run.
    pub fn handle_python_message(&self, args: &serde_json::Value) -> (r: Option<String>)
        ensures
            r.deep_view() == text_for_scripts(*self, *args),
    {
        if self.python_attached {
            Some(json_to_string(args))
        } else {
            None
        }
    }
}

/// A message of a diagnosis.
pub open spec fn diagnosis_message(diagnostic_type: Seq<char>, message: Seq<char>) -> EventView {
    ordinary_message(diagnostic_type + ": "@ + message)
}

/// A message of a diagnosis.
pub fn handle_diagnostic_event(diagnostic_type: &str, message: &str) -> (e: Event)
    ensures
        e.deep_view() == diagnosis_message(diagnostic_type@, message@),
{
    let text: String = diagnostic_type.to_owned().concat(": ").concat(message);
    console_message(text.as_str())
}

/// A message is its text on a line of its own, in its category: the console for ordinary ones and for
/// diagnoses, which are named by their type, and standard error for errors.
pub proof fn law_messages_are_lines(
    category: Option<Seq<char>>,
    text: Seq<char>,
    kind: Seq<char>,
)
    ensures
        message_event(category, text) == (EventView::Output { category, output: text.push('\n') }),
        ordinary_message(text) == (EventView::Output {
            category: Some("console"@),
            output: text.push('\n'),
        }),
        error_message(text) == (EventView::Output {
            category: Some("stderr"@),
            output: text.push('\n'),
        }),
        script_message(text) == ordinary_message("Executing script: "@ + text),
        diagnosis_message(kind, text) == ordinary_message(kind + ": "@ + text),
{
    reveal_strlit("\n");
    assert(text + "\n"@ =~= text.push('\n'));
}

/// A piece without a line feed waits as long as it fits into the buffer with what waits already. One
/// that does not fit is held back alone, and what waited is shown. One that fills the buffer by
/// itself is shown with what waited.
pub proof fn law_parts_of_lines_wait_while_they_fit(pending: Seq<u8>, data: Seq<u8>)
    requires
        !data.contains(10u8),
    ensures
        data.len() < 1024 && pending.len() + data.len() <= 1024 ==> console_emitted(
            pending,
            data,
        ).len() == 0 && console_kept(pending, data) == pending + data,
        data.len() < 1024 && pending.len() + data.len() > 1024 ==> console_emitted(pending, data)
            == pending && console_kept(pending, data) == data,
        data.len() >= 1024 ==> console_emitted(pending, data) == pending + data && console_kept(
            pending,
            data,
        ).len() == 0,
{
    lemma_complete_lines(data);
    if complete_lines(data) > 0 {
        assert(data.contains(data[complete_lines(data) - 1]));
    }
}

/// What leaves the buffer is shown in the console, and nothing is shown where nothing leaves it.
pub proof fn law_what_leaves_the_buffer_is_shown(pending: Seq<u8>, data: Seq<u8>)
    ensures
        shown_event(pending, data) is None <==> console_emitted(pending, data).len() == 0,
        shown_event(pending, data) is Some ==> shown_event(pending, data) == Some(
            EventView::Output {
                category: Some("console"@),
                output: lossy_text(console_emitted(pending, data)),
            },
        ),
{
}

/// Text in UTF-8 is shown as that text.
pub proof fn law_text_is_shown_as_it_is(category: Seq<char>, bytes: Seq<u8>)
    ensures
        text_event(category, bytes) == (EventView::Output {
            category: Some(category),
            output: decode_utf8(bytes),
        }),
        output_event(category, bytes) == (EventView::Output {
            category: Some(category),
            output: lossy_text(bytes),
        }),
{
}

/// A command of the user shows its output where it has any. A command that fails shows its error,
/// last. Commands that run the debuggee backwards show nothing else.
pub proof fn law_commands_show_output_and_errors(kind: ScriptKind, result: CommandResult)
    ensures
        ({
            let events = command_events(kind, result);
            let shows_output = kind == ScriptKind::User && result.output@.len() > 0;
            &&& events.len() == (if shows_output {
                1int
            } else {
                0
            }) + (if result.succeeded {
                0int
            } else {
                1
            })
            &&& shows_output ==> events[0] == ordinary_message(result.output@)
            &&& !result.succeeded ==> events.last() == error_message(result.error@)
        }),
{
}

/// A script that fails ends with the text of the command's error. The user is to blame for what the
/// user wrote, and nobody else for the rest.
pub proof fn law_script_errors_are_those_of_the_command(
    kind: ScriptKind,
    result: CommandResult,
    e: Error,
)
    requires
        script_error(kind, result, e),
    ensures
        e.message@ == result.error@,
        kind == ScriptKind::User ==> e.blame == Blame::User,
        kind == ScriptKind::Reverse ==> e.blame == Blame::Internal,
{
}

/// The debugger is made asynchronous after a script of the user, and after no other.
pub proof fn law_user_scripts_leave_the_debugger_asynchronous(kind: ScriptKind)
    ensures
        kind == ScriptKind::User ==> end_actions(kind).len() == 1 && end_actions(kind)[0]
            is SetAsyncMode,
        kind == ScriptKind::Reverse ==> end_actions(kind).len() == 0,
{
}

/// Running backwards selects the thread, by its identifier in lower case hexadecimal, then steps or
/// runs back, then goes one step back and one forth.
pub proof fn law_running_backwards_takes_four_commands(thread_id: i64)
    requires
        thread_id >= 0,
    ensures
        step_back_texts(thread_id).len() == 4,
        reverse_continue_texts(thread_id).len() == 4,
        step_back_texts(thread_id)[0] == "process plugin packet send "@ + ("Hc"@ + hex_lower(
            thread_id as nat,
        )),
        step_back_texts(thread_id)[1] == "process plugin packet send "@ + "bs"@,
        step_back_texts(thread_id)[2] == "process plugin packet send "@ + "bs"@,
        step_back_texts(thread_id)[3] == "stepi"@,
        reverse_continue_texts(thread_id)[0] == step_back_texts(thread_id)[0],
        reverse_continue_texts(thread_id)[1] == "process plugin packet send "@ + "bc"@,
        reverse_continue_texts(thread_id)[2] == step_back_texts(thread_id)[2],
        reverse_continue_texts(thread_id)[3] == step_back_texts(thread_id)[3],
{
}

/// Events of scripts reach the client as they are, and their messages as lines in the category that
/// they name.
pub proof fn law_scripts_reach_the_client<E>(event: PythonEvent<E>, r: ScriptEvent<E>)
    requires
        script_event_sent(event, r),
    ensures
        event matches PythonEvent::SendDapEvent(own) ==> r is Own && r->Own_0 == own,
        event matches PythonEvent::DebuggerMessage { output, category } ==> (r
            matches ScriptEvent::Message(e) && e.deep_view() == (EventView::Output {
            category: Some(category@),
            output: output@ + "\n"@,
        })),
{
}

/// Messages of the client reach the scripts, written out, just where scripts run.
pub proof fn law_clients_reach_scripts_that_run(s: DebugSession, args: serde_json::Value)
    ensures
        text_for_scripts(s, args) is Some <==> s.python_attached,
        s.python_attached ==> text_for_scripts(s, args)->0 == json_text(args),
{
}

}
