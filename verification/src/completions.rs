//! Completion of debugger commands that are typed into the console.
use vstd::prelude::*;
use vstd::utf8::encode_utf8;

use crate::error::{says, str_error, Blame, Error};
use crate::outside::{alphabetic, is_alphabetic};
use crate::session::{ConsoleMode, DebugSession};
use crate::text::{char_count, last_word, last_word_of, lemma_last_word_len, starts_with};

verus! {

/// What stands in the console, and the column of the cursor, counted in characters from one.
#[derive(Debug)]
pub struct CompletionsArguments {
    pub text: String,
    pub column: i64,
}

/// A command to complete at the cursor, which stands behind `cursor` characters, or
/// `cursor_index` bytes, of the text.
#[derive(Debug)]
pub struct CompletionQuery {
    pub text: String,
    pub cursor: usize,
    pub cursor_index: u32,
}

/// A proposal. Where the range that it replaces is not given, the client works it out.
#[derive(Debug)]
pub struct CompletionItem {
    pub label: String,
    pub start: Option<i64>,
    pub length: Option<i64>,
}

#[verifier::ext_equal]
pub struct CompletionItemView {
    pub label: Seq<char>,
    pub start: Option<i64>,
    pub length: Option<i64>,
}

impl DeepView for CompletionItem {
    type V = CompletionItemView;

    open spec fn deep_view(&self) -> CompletionItemView {
        CompletionItemView { label: self.label@, start: self.start, length: self.length }
    }
}

/// The command in a line of the console, with the number of columns in front of its first
/// character, counted from one. A line is a command as it stands, or behind a mark.
pub open spec fn command_in(mode: ConsoleMode, line: Seq<char>) -> Option<(Seq<char>, int)> {
    match mode {
        ConsoleMode::Commands => Some((line, 1)),
        _ => if "`"@.is_prefix_of(line) {
            Some((line.skip(1), 2))
        } else if "/cmd "@.is_prefix_of(line) {
            Some((line.skip(5), 6))
        } else {
            None
        },
    }
}

/// The command that is looked up: one that is empty or starts with a letter.
pub open spec fn completable(mode: ConsoleMode, line: Seq<char>) -> Option<(Seq<char>, int)> {
    match command_in(mode, line) {
        Some((command, offset)) => if command.len() > 0 && !alphabetic(command[0]) {
            None
        } else {
            Some((command, offset))
        },
        None => None,
    }
}

/// How many characters of a text of `len` characters stand before the cursor. A cursor that is
/// not in the text stands behind it.
pub open spec fn cursor_position(len: nat, cursor_column: i64) -> nat {
    let k = (cursor_column as usize) as nat;
    if k < len {
        k
    } else {
        len
    }
}

/// The beginning of a completion that the user has typed already.
pub open spec fn typed_prefix(query: CompletionQuery) -> Seq<char> {
    last_word(query.text@.take(query.cursor as int))
}

/// The proposal for one completion. It replaces what was typed where it begins with that and
/// with what all completions continue it by.
pub open spec fn item_for(prefix: Seq<char>, column: i64, continuation: Seq<char>, label: Seq<char>)
    -> CompletionItemView {
    if (prefix + continuation).is_prefix_of(label) {
        CompletionItemView {
            label,
            start: Some((column - prefix.len()) as i64),
            length: Some(prefix.len() as i64),
        }
    } else {
        CompletionItemView { label, start: None, length: None }
    }
}

/// Whether an ASCII character at the start of a command decides by itself whether the command is
/// looked up: it is where that is a letter.
pub open spec fn ascii_start_decides(
    mode: ConsoleMode,
    line: Seq<char>,
    q: Option<CompletionQuery>,
) -> bool {
    command_in(mode, line) matches Some((command, _)) ==> (command.len() > 0 && (command[0] as u32)
        < 128 ==> (q is Some <==> 'a' <= command[0] <= 'z' || 'A' <= command[0] <= 'Z'))
}

/// Whether `r` is what to ask the debugger for the completions of a line.
pub open spec fn completions_asked(
    s: DebugSession,
    args: CompletionsArguments,
    r: Result<Option<CompletionQuery>, Error>,
) -> bool {
    match r {
        Err(e) => {
            &&& !s.command_completions
            &&& says(e, Blame::Internal, "Completions are disabled"@)
        },
        Ok(q) => {
            &&& s.command_completions
            &&& ascii_start_decides(s.console_mode, args.text@, q)
            &&& match completable(s.console_mode, args.text@) {
                None => q is None,
                Some((command, offset)) => q matches Some(query) && {
                    &&& query.text@ == command
                    &&& query.cursor == cursor_position(
                        command.len(),
                        (args.column - offset) as i64,
                    )
                    &&& query.cursor_index == (encode_utf8(
                        command.take(query.cursor as int),
                    ).len() as usize) as u32
                },
            }
        },
    }
}

/// The proposals that follow from the answer of the debugger.
pub open spec fn proposals(
    query: CompletionQuery,
    column: i64,
    answer: Option<(String, Vec<String>)>,
) -> Seq<CompletionItemView> {
    match answer {
        None => Seq::empty(),
        Some((continuation, completions)) => Seq::new(
            completions@.len(),
            |i: int| item_for(typed_prefix(query), column, continuation@, completions@[i]@),
        ),
    }
}

impl DebugSession {
    /// How many columns stand in front of the command in a line, counted from one: none where the
    /// line is no command.
    pub fn command_offset(&self, line: &str) -> (r: Option<i64>)
        ensures
            match command_in(self.console_mode, line@) {
                Some((_, offset)) => r matches Some(n) && n == offset && 1 <= n <= 6,
                None => r is None,
            },
    {
        match self.console_mode {
            ConsoleMode::Commands => Some(1),
            ConsoleMode::Split | ConsoleMode::Evaluate => {
                if starts_with(line, "`") {
                    Some(2)
                } else if starts_with(line, "/cmd ") {
                    Some(6)
                } else {
                    None
                }
            },
        }
    }

    /// What to ask the debugger, if anything, for the completions of a line.
    pub fn handle_completions(&self, args: &CompletionsArguments) -> (r: Result<
        Option<CompletionQuery>,
        Error,
    >)
        requires
            self.command_completions ==> (command_in(self.console_mode, args.text@) matches Some(
                (_, offset),
            ) ==> args.column - offset >= i64::MIN),
        ensures
            completions_asked(*self, *args, r),
    {
        if !self.command_completions {
            return Err(str_error("Completions are disabled"));
        }
        let line: &str = args.text.as_str();
        let n: usize = char_count(line);
        let offset: i64 = match self.command_offset(line) {
            Some(offset) => offset,
            None => {
                return Ok(None);
            },
        };
        proof {
            reveal_strlit("`");
            reveal_strlit("/cmd ");
        }
        let skipped: usize = (offset - 1) as usize;
        let command: &str = line.substring_char(skipped, n);
        proof {
            assert(command@ =~= line@.skip(skipped as int));
            assert(skipped == 0 ==> command@ =~= line@);
            assert(command_in(self.console_mode, line@) == Some((command@, offset as int)));
        }
        let len: usize = char_count(command);
        if len > 0 && !is_alphabetic(command.get_char(0)) {
            return Ok(None);
        }
        let column: usize = #[verifier::truncate] ((args.column - offset) as usize);
        let cursor: usize = if column < len { column } else { len };
        let before: &str = command.substring_char(0, cursor);
        proof {
            assert(before@ =~= command@.take(cursor as int));
        }
        let cursor_index: u32 = #[verifier::truncate] (before.len() as u32);
        Ok(Some(CompletionQuery { text: command.to_owned(), cursor, cursor_index }))
    }
}

/// The proposals that follow from the answer of the debugger: what all completions share beyond
/// the text before the cursor, and the completions.
pub fn completions_found(
    query: &CompletionQuery,
    column: i64,
    answer: Option<(String, Vec<String>)>,
) -> (items: Vec<CompletionItem>)
    requires
        query.cursor <= query.text@.len() <= i64::MAX,
        column - typed_prefix(*query).len() >= i64::MIN,
    ensures
        items.deep_view() == proposals(*query, column, answer),
{
    let mut items: Vec<CompletionItem> = Vec::new();
    match answer {
        None => {
            proof {
                assert(items.deep_view() =~= Seq::empty());
            }
        },
        Some((continuation, completions)) => {
            let prefix: String = last_word_of(query.text.as_str().substring_char(0, query.cursor));
            let ghost typed = typed_prefix(*query);
            proof {
                assert(query.text@.subrange(0, query.cursor as int) =~= query.text@.take(
                    query.cursor as int,
                ));
                lemma_last_word_len(query.text@.take(query.cursor as int));
            }
            let prefix_len: usize = char_count(prefix.as_str());
            let extended: String = prefix.concat(continuation.as_str());
            let mut i: usize = 0;
            while i < completions.len()
                invariant
                    i <= completions@.len(),
                    items@.len() == i,
                    prefix_len == typed.len(),
                    prefix_len <= i64::MAX,
                    column - prefix_len >= i64::MIN,
                    extended@ == typed + continuation@,
                    forall|j: int|
                        0 <= j < i ==> (#[trigger] items@[j]).deep_view() == item_for(
                            typed,
                            column,
                            continuation@,
                            completions@[j]@,
                        ),
                decreases completions@.len() - i,
            {
                let label: String = completions[i].clone();
                if starts_with(label.as_str(), extended.as_str()) {
                    items.push(
                        CompletionItem {
                            label,
                            start: Some(column - prefix_len as i64),
                            length: Some(prefix_len as i64),
                        },
                    );
                } else {
                    items.push(CompletionItem { label, start: None, length: None });
                }
                i = i + 1;
            }
            proof {
                assert(items.deep_view() =~= Seq::new(
                    completions@.len(),
                    |i: int| item_for(typed, column, continuation@, completions@[i]@),
                ));
            }
        },
    }
    items
}

/// A proposal keeps the completion as it is. Where it names the range to replace, the range ends
/// at the cursor, and it is as long as what the label begins with and was typed already.
pub proof fn law_replaced_range_ends_at_cursor(
    prefix: Seq<char>,
    column: i64,
    continuation: Seq<char>,
    label: Seq<char>,
)
    requires
        prefix.len() <= i64::MAX,
        column - prefix.len() >= i64::MIN,
    ensures
        ({
            let item = item_for(prefix, column, continuation, label);
            &&& item.label == label
            &&& item.start is Some == item.length is Some
            &&& item.start is Some ==> {
                &&& item.start->0 + item.length->0 == column
                &&& label.take(item.length->0 as int) == prefix
            }
        }),
{
    if (prefix + continuation).is_prefix_of(label) {
        assert(label.take(prefix.len() as int) =~= prefix) by {
            assert forall|i: int| 0 <= i < prefix.len() implies label[i] == prefix[i] by {
                assert((prefix + continuation)[i] == prefix[i]);
                assert(label.subrange(0, (prefix + continuation).len() as int)[i] == label[i]);
            }
        }
    }
}

/// Every line is a command in a console for commands. In the other consoles, which are alike, a
/// command follows a backtick or the word for commands, and the mark is not part of it. The columns
/// are counted past the mark.
pub proof fn law_commands_follow_their_mark(line: Seq<char>, command: Seq<char>)
    ensures
        command_in(ConsoleMode::Commands, line) == Some((line, 1int)),
        command_in(ConsoleMode::Split, line) == command_in(ConsoleMode::Evaluate, line),
        command_in(ConsoleMode::Split, seq!['`'] + command) == Some((command, 2int)),
        command_in(ConsoleMode::Split, seq!['/', 'c', 'm', 'd', ' '] + command) == Some(
            (command, 6int),
        ),
        command_in(ConsoleMode::Split, line) is None <==> !(seq!['`'].is_prefix_of(line)
            || seq!['/', 'c', 'm', 'd', ' '].is_prefix_of(line)),
{
    reveal_strlit("`");
    reveal_strlit("/cmd ");
    assert("`"@ =~= seq!['`']);
    assert("/cmd "@ =~= seq!['/', 'c', 'm', 'd', ' ']);
    let short = seq!['`'] + command;
    let long = seq!['/', 'c', 'm', 'd', ' '] + command;
    assert(short.subrange(0, 1) =~= seq!['`']);
    assert(short.skip(1) =~= command);
    assert(long.subrange(0, 5) =~= seq!['/', 'c', 'm', 'd', ' ']);
    assert(long.skip(5) =~= command);
    assert(long[0] == '/');
    assert(!seq!['`'].is_prefix_of(long)) by {
        assert(long.subrange(0, 1)[0] == '/');
    }
}

/// Completions are asked for where they are enabled, of commands that are empty or start with a
/// letter, and else an error tells that they are disabled. The command is asked about as it is.
pub proof fn law_commands_that_start_with_a_letter_are_asked_about(
    s: DebugSession,
    args: CompletionsArguments,
    r: Result<Option<CompletionQuery>, Error>,
)
    requires
        completions_asked(s, args, r),
    ensures
        r is Ok <==> s.command_completions,
        r matches Err(e) ==> e.blame == Blame::Internal && e.message@
            == "Completions are disabled"@,
        r matches Ok(q) ==> (q is Some <==> (command_in(s.console_mode, args.text@) matches Some(
            (command, _),
        ) && (command.len() == 0 || alphabetic(command[0])))),
        r matches Ok(Some(query)) ==> (command_in(s.console_mode, args.text@) matches Some(
            (command, _),
        ) && query.text@ == command),
        r matches Ok(q) ==> (command_in(s.console_mode, args.text@) matches Some((command, _))
            ==> (command.len() > 0 && (command[0] as u32) < 128 ==> (q is Some <==> 'a'
            <= command[0] <= 'z' || 'A' <= command[0] <= 'Z'))),
{
}

/// The cursor stands behind as many characters of the command as columns lie between the command and
/// the cursor, and behind the command where there are more, or where the cursor is in front of the
/// command. Its index counts the bytes in front of it.
pub proof fn law_cursors_are_counted_from_the_command(
    s: DebugSession,
    args: CompletionsArguments,
    r: Result<Option<CompletionQuery>, Error>,
)
    requires
        completions_asked(s, args, r),
        usize::BITS == 64,
        args.text@.len() <= i64::MAX,
    ensures
        r matches Ok(Some(query)) ==> (command_in(s.console_mode, args.text@) matches Some(
            (command, offset),
        ) && {
            let typed = args.column - offset;
            &&& 0 <= typed <= command.len() ==> query.cursor == typed
            &&& typed > command.len() ==> query.cursor == command.len()
            &&& i64::MIN <= typed < 0 ==> query.cursor == command.len()
            &&& encode_utf8(command.take(query.cursor as int)).len() <= u32::MAX
                ==> query.cursor_index == encode_utf8(command.take(query.cursor as int)).len()
        }),
{
    if let Ok(Some(query)) = r {
        if let Some((command, offset)) = command_in(s.console_mode, args.text@) {
            reveal_strlit("`");
            reveal_strlit("/cmd ");
            assert(command.len() <= args.text@.len());
            let typed = (args.column - offset) as i64;
            if typed < 0 {
                assert((typed as usize) as u64 >= 0x8000_0000_0000_0000u64) by (bit_vector)
                    requires
                        typed < 0,
                        usize::BITS == 64,
                ;
            }
        }
    }
}

/// Each completion is proposed as it is, in its place, and nothing else is. What it replaces is told
/// just where it goes on from the word in front of the cursor by what all completions share.
pub proof fn law_each_completion_is_proposed(
    query: CompletionQuery,
    column: i64,
    continuation: String,
    completions: Vec<String>,
)
    requires
        query.cursor <= query.text@.len() <= i64::MAX,
        column - typed_prefix(query).len() >= i64::MIN,
    ensures
        proposals(query, column, None).len() == 0,
        ({
            let items = proposals(query, column, Some((continuation, completions)));
            let word = last_word(query.text@.take(query.cursor as int));
            &&& items.len() == completions@.len()
            &&& forall|i: int|
                0 <= i < items.len() ==> {
                    &&& (#[trigger] items[i]).label == completions@[i]@
                    &&& items[i].length is Some <==> items[i].start is Some
                    &&& items[i].start is Some <==> (word + continuation@).is_prefix_of(
                        completions@[i]@,
                    )
                    &&& items[i].start is Some ==> {
                        &&& items[i].length->0 == word.len()
                        &&& items[i].start->0 + word.len() == column
                    }
                }
        }),
{
    lemma_last_word_len(query.text@.take(query.cursor as int));
}

/// The view of a proposal has each of its parts, written as it is.
pub proof fn law_proposals_are_seen_as_they_are(item: CompletionItem)
    ensures
        item.deep_view().label == item.label@,
        item.deep_view().start == item.start,
        item.deep_view().length == item.length,
{
}

}
