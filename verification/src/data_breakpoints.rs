//! Data breakpoints: what can be watched, the identifiers that stand for it, and how it is watched.
use vstd::prelude::*;

use crate::error::{says, str_error, Blame, Error};
use crate::outside::{parse_prefixed_u64, parse_u64, parse_usize, prefixed_u64, u64_refusal};
use crate::session::{Action, ActionView, Container, DebugSession};
use crate::text::{
    address_text, after_first, before_first, decimal, hex_upper, lemma_before_first, lemma_decimal_value,
    push_decimal, push_hex_upper, split_first, unsigned_value,
};

verus! {

/// The address that stands for no address.
pub const INVALID_ADDRESS: u64 = 0xffff_ffff_ffff_ffff;

/// The watchpoint identifiers start here among the breakpoint identifiers.
pub const WATCHPOINT_ID_BASE: i64 = 1_000_000;

/// What kind of access triggers a data breakpoint.
#[derive(Clone, Copy, Debug, PartialEq, Eq, Structural)]
pub enum DataBreakpointAccessType {
    Read,
    Write,
    ReadWrite,
}

/// A question about what can be watched: a child of a container of variables, an address, or an
/// expression.
#[derive(Debug)]
pub struct DataBreakpointInfoArguments {
    pub variables_reference: Option<i64>,
    pub frame_id: Option<i64>,
    pub name: String,
    pub bytes: Option<i64>,
    pub as_address: Option<bool>,
}

/// Which of the three a question asks for. In the last two the frame is looked up first.
#[derive(Clone, Copy, Debug, PartialEq, Eq, Structural)]
pub enum InfoQuery {
    Child { variables_reference: i64 },
    Address { frame_id: Option<i64>, address: u64 },
    Expression { frame_id: Option<i64> },
}

/// How a child is found in its container.
#[derive(Clone, Copy, Debug, PartialEq, Eq, Structural)]
pub enum ChildLookup {
    MemberWithName,
    Variable,
    GlobalValue,
    StaticValue,
    Nothing,
}

/// The frame in which an expression is evaluated.
#[derive(Clone, Copy, Debug, PartialEq, Eq, Structural)]
pub enum FrameChoice {
    /// The frame that is selected in the thread of the frame that was given.
    SelectedInThread,
    /// The frame that was given.
    Given,
    /// No frame.
    NoFrame,
}

/// A value as the debugger found it.
#[derive(Debug)]
pub struct FoundValue {
    pub load_address: u64,
    pub byte_size: u64,
    pub name: Option<String>,
}

/// What the debugger found out about a query.
#[derive(Debug)]
pub enum InfoAnswer {
    Child(Option<FoundValue>),
    /// `resolves` tells whether the address can be resolved in the target.
    Address { resolves: bool, address_byte_size: u32 },
    Expression(FoundValue),
}

/// Whether and how something can be watched.
#[derive(Debug)]
pub struct DataBreakpointInfo {
    pub data_id: Option<String>,
    pub access_types: Option<Vec<DataBreakpointAccessType>>,
    pub description: String,
}

#[verifier::ext_equal]
pub struct DataBreakpointInfoView {
    pub data_id: Option<Seq<char>>,
    pub access_types: Option<Seq<DataBreakpointAccessType>>,
    pub description: Seq<char>,
}

impl View for DataBreakpointInfo {
    type V = DataBreakpointInfoView;

    open spec fn view(&self) -> DataBreakpointInfoView {
        DataBreakpointInfoView {
            data_id: self.data_id.deep_view(),
            access_types: match self.access_types {
                Some(v) => Some(v@),
                None => None,
            },
            description: self.description@,
        }
    }
}

/// The identifier of `size` bytes at `address`.
pub open spec fn data_id_text(address: nat, size: nat) -> Seq<char> {
    decimal(address) + seq!['/'] + decimal(size)
}

/// The number of bytes to watch: what was asked for, or else the size of the thing itself.
pub open spec fn watched_size(bytes: Option<i64>, own_size: i64) -> usize {
    match bytes {
        Some(b) => b as usize,
        None => own_size as usize,
    }
}

/// The answer that something cannot be watched.
pub open spec fn refused(description: Seq<char>) -> DataBreakpointInfoView {
    DataBreakpointInfoView { data_id: None, access_types: None, description }
}

/// The answer that `size` bytes at `address` can be watched.
pub open spec fn watchable(address: u64, size: usize, description: Seq<char>)
    -> DataBreakpointInfoView {
    DataBreakpointInfoView {
        data_id: Some(data_id_text(address as nat, size as nat)),
        access_types: Some(
            seq![
                DataBreakpointAccessType::Read,
                DataBreakpointAccessType::Write,
                DataBreakpointAccessType::ReadWrite,
            ],
        ),
        description,
    }
}

/// A range of bytes in words.
pub open spec fn range_text(size: usize, address: u64) -> Seq<char> {
    decimal(size as nat) + " bytes at "@ + hex_upper(address as nat)
}

/// A range of bytes in words, with what is there.
pub open spec fn named_range_text(size: usize, address: u64, name: Seq<char>) -> Seq<char> {
    range_text(size, address) + " ("@ + name + ")"@
}

/// The answer about a value: its address decides whether it can be watched.
pub open spec fn value_info(
    value: FoundValue,
    bytes: Option<i64>,
    default_name: Seq<char>,
    without_address: Seq<char>,
) -> DataBreakpointInfoView {
    let size = watched_size(bytes, value.byte_size as i64);
    let name = match value.name {
        Some(n) => n@,
        None => default_name,
    };
    if value.load_address == INVALID_ADDRESS {
        refused(without_address)
    } else {
        watchable(
            value.load_address,
            size,
            named_range_text(size, value.load_address, name),
        )
    }
}

/// Whether the debugger found out what it was asked for.
pub open spec fn fits_query(query: InfoQuery, answer: InfoAnswer) -> bool {
    match query {
        InfoQuery::Child { .. } => answer is Child,
        InfoQuery::Address { .. } => answer is Address,
        InfoQuery::Expression { .. } => answer is Expression,
    }
}

/// The answer to a question, given what the debugger was asked for and found out.
pub open spec fn info_for(args: DataBreakpointInfoArguments, query: InfoQuery, answer: InfoAnswer)
    -> DataBreakpointInfoView {
    match answer {
        InfoAnswer::Child(None) => refused("Variable not found."@),
        InfoAnswer::Child(Some(value)) => value_info(
            value,
            args.bytes,
            ""@,
            "This variable doesn't have an address."@,
        ),
        InfoAnswer::Address { resolves, address_byte_size } => {
            let address = query->address;
            let size = watched_size(args.bytes, address_byte_size as i64);
            if address == INVALID_ADDRESS || !resolves {
                refused("Invalid address "@ + decimal(address as nat))
            } else {
                watchable(address, size, range_text(size, address))
            }
        },
        InfoAnswer::Expression(value) => value_info(
            value,
            args.bytes,
            args.name@,
            "This value doesn't have an address."@,
        ),
    }
}

fn make_range_text(size: usize, address: u64) -> (s: String)
    ensures
        s@ == range_text(size, address),
{
    let mut s: String = String::new();
    push_decimal(&mut s, size as u64);
    s.append(" bytes at ");
    push_hex_upper(&mut s, address);
    proof {
        assert(s@ =~= range_text(size, address));
    }
    s
}

fn make_refused(description: String) -> (r: DataBreakpointInfo)
    ensures
        r@ == refused(description@),
{
    DataBreakpointInfo { data_id: None, access_types: None, description }
}

fn make_watchable(address: u64, size: usize, description: String) -> (r: DataBreakpointInfo)
    ensures
        r@ == watchable(address, size, description@),
{
    let mut data_id: String = String::new();
    push_decimal(&mut data_id, address);
    data_id.push('/');
    push_decimal(&mut data_id, size as u64);
    let mut access_types: Vec<DataBreakpointAccessType> = Vec::new();
    access_types.push(DataBreakpointAccessType::Read);
    access_types.push(DataBreakpointAccessType::Write);
    access_types.push(DataBreakpointAccessType::ReadWrite);
    proof {
        assert(data_id@ =~= data_id_text(address as nat, size as nat));
        assert(access_types@ =~= seq![
            DataBreakpointAccessType::Read,
            DataBreakpointAccessType::Write,
            DataBreakpointAccessType::ReadWrite,
        ]);
    }
    DataBreakpointInfo { data_id: Some(data_id), access_types: Some(access_types), description }
}

fn size_to_watch(bytes: Option<i64>, own_size: i64) -> (size: usize)
    ensures
        size == watched_size(bytes, own_size),
{
    match bytes {
        Some(b) => #[verifier::truncate] (b as usize),
        None => #[verifier::truncate] (own_size as usize),
    }
}

fn make_value_info(
    value: &FoundValue,
    bytes: Option<i64>,
    default_name: &str,
    without_address: &str,
) -> (r: DataBreakpointInfo)
    ensures
        r@ == value_info(*value, bytes, default_name@, without_address@),
{
    if value.load_address == INVALID_ADDRESS {
        return make_refused(without_address.to_owned());
    }
    let own_size: i64 = #[verifier::truncate] (value.byte_size as i64);
    let size: usize = size_to_watch(bytes, own_size);
    let mut description: String = make_range_text(size, value.load_address);
    description.append(" (");
    match &value.name {
        Some(name) => description.append(name.as_str()),
        None => description.append(default_name),
    }
    description.append(")");
    make_watchable(value.load_address, size, description)
}

/// What a question asks the debugger for. The name of an address is read as an integer, and
/// what cannot be read is no address.
pub open spec fn query_for(args: DataBreakpointInfoArguments) -> InfoQuery {
    match args.variables_reference {
        Some(variables_reference) => InfoQuery::Child { variables_reference },
        None => if args.as_address == Some(true) {
            InfoQuery::Address {
                frame_id: args.frame_id,
                address: match prefixed_u64(args.name@) {
                    Some(address) => address,
                    None => INVALID_ADDRESS,
                },
            }
        } else {
            InfoQuery::Expression { frame_id: args.frame_id }
        },
    }
}

/// What a question asks the debugger for. An address that is written as the session writes
/// addresses is found again.
pub fn handle_data_breakpoint_info(args: &DataBreakpointInfoArguments) -> (q: InfoQuery)
    ensures
        q == query_for(*args),
        forall|n: u64|
            args.name@ == #[trigger] address_text(n as nat) && args.variables_reference is None
                && args.as_address == Some(true) ==> q == (InfoQuery::Address {
                frame_id: args.frame_id,
                address: n,
            }),
{
    match args.variables_reference {
        Some(variables_reference) => InfoQuery::Child { variables_reference },
        None => {
            if args.as_address.unwrap_or(false) {
                let address: u64 = parse_prefixed_u64(args.name.as_str()).unwrap_or(
                    INVALID_ADDRESS,
                );
                InfoQuery::Address { frame_id: args.frame_id, address }
            } else {
                InfoQuery::Expression { frame_id: args.frame_id }
            }
        },
    }
}

/// How a child is looked up in a container of this kind.
pub open spec fn lookup_in(container: Container) -> ChildLookup {
    match container {
        Container::Value => ChildLookup::MemberWithName,
        Container::Locals => ChildLookup::Variable,
        Container::Globals => ChildLookup::GlobalValue,
        Container::Statics => ChildLookup::StaticValue,
        _ => ChildLookup::Nothing,
    }
}

/// How a child is looked up in a container of this kind.
pub fn child_lookup(container: Container) -> (r: ChildLookup)
    ensures
        r == lookup_in(container),
{
    match container {
        Container::Value => ChildLookup::MemberWithName,
        Container::Locals => ChildLookup::Variable,
        Container::Globals => ChildLookup::GlobalValue,
        Container::Statics => ChildLookup::StaticValue,
        _ => ChildLookup::Nothing,
    }
}

/// The frame that a frame reference stands for, given what the reference leads to. After the
/// selected frame was changed by hand, the selected one counts.
pub open spec fn chosen_frame(s: DebugSession, container: Option<Container>) -> FrameChoice {
    match container {
        Some(Container::StackFrame) => if s.selected_frame_changed {
            FrameChoice::SelectedInThread
        } else {
            FrameChoice::Given
        },
        _ => FrameChoice::NoFrame,
    }
}

impl DebugSession {
    /// The frame that a frame reference stands for, given what the reference leads to.
    pub fn frame_choice(&self, container: Option<Container>) -> (r: FrameChoice)
        ensures
            r == chosen_frame(*self, container),
    {
        match container {
            Some(Container::StackFrame) => {
                if self.selected_frame_changed {
                    FrameChoice::SelectedInThread
                } else {
                    FrameChoice::Given
                }
            },
            _ => FrameChoice::NoFrame,
        }
    }
}

/// The answer to a question, given what the debugger was asked for and found out.
pub fn data_breakpoint_info(
    args: &DataBreakpointInfoArguments,
    query: InfoQuery,
    answer: &InfoAnswer,
) -> (r: DataBreakpointInfo)
    requires
        fits_query(query, *answer),
    ensures
        r@ == info_for(*args, query, *answer),
{
    match answer {
        InfoAnswer::Child(None) => make_refused("Variable not found.".to_owned()),
        InfoAnswer::Child(Some(value)) => make_value_info(
            value,
            args.bytes,
            "",
            "This variable doesn't have an address.",
        ),
        InfoAnswer::Address { resolves, address_byte_size } => {
            let address: u64 = match query {
                InfoQuery::Address { frame_id: _, address } => address,
                _ => INVALID_ADDRESS,
            };
            if address == INVALID_ADDRESS || !*resolves {
                let mut description: String = "Invalid address ".to_owned();
                push_decimal(&mut description, address);
                make_refused(description)
            } else {
                let size: usize = size_to_watch(args.bytes, *address_byte_size as i64);
                make_watchable(address, size, make_range_text(size, address))
            }
        },
        InfoAnswer::Expression(value) => make_value_info(
            value,
            args.bytes,
            args.name.as_str(),
            "This value doesn't have an address.",
        ),
    }
}

/// A data breakpoint to set.
#[derive(Debug)]
pub struct DataBreakpoint {
    pub data_id: String,
    pub access_type: Option<DataBreakpointAccessType>,
}

/// A range of bytes to watch.
#[derive(Clone, Copy, Debug, PartialEq, Eq, Structural)]
pub struct WatchRequest {
    pub address: u64,
    pub size: usize,
    pub read: bool,
    pub write: bool,
}

/// The ranges to watch, in the order of the breakpoints, up to the first breakpoint whose
/// identifier cannot be read.
#[derive(Debug)]
pub struct WatchPlan {
    pub watches: Vec<WatchRequest>,
    pub failure: Option<Error>,
}

/// What became of a range: a watchpoint, or a refusal.
#[derive(Debug)]
pub enum WatchOutcome {
    Watching(u32),
    Refused(String),
}

/// The state of a breakpoint, as the client sees it.
#[derive(Debug)]
pub struct Breakpoint {
    pub id: Option<i64>,
    pub verified: bool,
    pub message: Option<String>,
}

#[verifier::ext_equal]
pub struct BreakpointView {
    pub id: Option<i64>,
    pub verified: bool,
    pub message: Option<Seq<char>>,
}

impl DeepView for Breakpoint {
    type V = BreakpointView;

    open spec fn deep_view(&self) -> BreakpointView {
        BreakpointView { id: self.id, verified: self.verified, message: self.message.deep_view() }
    }
}

/// The first two parts of an identifier, which a slash sets apart.
pub open spec fn data_id_parts(data_id: Seq<char>) -> (Seq<char>, Option<Seq<char>>) {
    (
        before_first(data_id, '/'),
        match after_first(data_id, '/') {
            Some(rest) => Some(before_first(rest, '/')),
            None => None,
        },
    )
}

/// The range that an identifier stands for: an address and a size in decimal, where both fit.
pub open spec fn data_id_range(data_id: Seq<char>) -> Option<(u64, usize)> {
    let (first, second) = data_id_parts(data_id);
    match (unsigned_value(first), second) {
        (Some(address), Some(second)) => match unsigned_value(second) {
            Some(size) => if address <= u64::MAX && size <= usize::MAX {
                Some((address as u64, size as usize))
            } else {
                None
            },
            None => None,
        },
        _ => None,
    }
}

/// Whether `e` says what is wrong with an identifier that stands for no range. The message about
/// the size is fixed where `usize` has 64 bits.
pub open spec fn data_id_refusal(data_id: Seq<char>, e: Error) -> bool {
    let (first, second) = data_id_parts(data_id);
    let address_ok = unsigned_value(first) matches Some(n) && n <= u64::MAX;
    &&& e.blame == Blame::Internal
    &&& if !address_ok {
        e.message@ == u64_refusal(first)
    } else {
        match second {
            None => e.message@ == ""@,
            Some(second) => usize::BITS == 64 ==> e.message@ == u64_refusal(second),
        }
    }
}

/// How a kind of access is watched. Writing is the default.
pub open spec fn access_of(access_type: Option<DataBreakpointAccessType>) -> (bool, bool) {
    match access_type {
        Some(DataBreakpointAccessType::Read) => (true, false),
        Some(DataBreakpointAccessType::Write) => (false, true),
        Some(DataBreakpointAccessType::ReadWrite) => (true, true),
        None => (false, true),
    }
}

/// A kind of access in words.
pub open spec fn access_text(read: bool, write: bool) -> Seq<char> {
    if read && write {
        "read and write"@
    } else if read {
        "read"@
    } else {
        "write"@
    }
}

/// Whether a breakpoint is watched by this request.
pub open spec fn watches_for(bp: DataBreakpoint, watch: WatchRequest) -> bool {
    &&& data_id_range(bp.data_id@) == Some((watch.address, watch.size))
    &&& (watch.read, watch.write) == access_of(bp.access_type)
}

/// Whether a plan follows from the breakpoints: it runs up to the first bad identifier.
pub open spec fn plans(bps: Seq<DataBreakpoint>, plan: WatchPlan) -> bool {
    let n = plan.watches@.len();
    &&& n <= bps.len()
    &&& forall|i: int| 0 <= i < n ==> watches_for(bps[i], #[trigger] plan.watches@[i])
    &&& (plan.failure is None <==> n == bps.len())
    &&& plan.failure matches Some(e) ==> {
        &&& data_id_range(bps[n as int].data_id@) is None
        &&& data_id_refusal(bps[n as int].data_id@, e)
    }
}

fn read_data_id(data_id: &str) -> (r: Result<(u64, usize), Error>)
    ensures
        match r {
            Ok(range) => data_id_range(data_id@) == Some(range),
            Err(e) => data_id_range(data_id@) is None && data_id_refusal(data_id@, e),
        },
{
    let (first, rest) = split_first(data_id, '/');
    let address: u64 = match parse_u64(first.as_str()) {
        Ok(address) => address,
        Err(message) => {
            return Err(Error { blame: Blame::Internal, message });
        },
    };
    match rest {
        None => Err(str_error("")),
        Some(rest) => {
            let (second, _) = split_first(rest.as_str(), '/');
            match parse_usize(second.as_str()) {
                Ok(size) => Ok((address, size)),
                Err(message) => Err(Error { blame: Blame::Internal, message }),
            }
        },
    }
}

fn plan_watches(breakpoints: &Vec<DataBreakpoint>) -> (plan: WatchPlan)
    ensures
        plans(breakpoints@, plan),
{
    let mut watches: Vec<WatchRequest> = Vec::new();
    let mut i: usize = 0;
    while i < breakpoints.len()
        invariant
            i <= breakpoints@.len(),
            watches@.len() == i,
            forall|j: int| 0 <= j < i ==> watches_for(breakpoints@[j], #[trigger] watches@[j]),
        decreases breakpoints@.len() - i,
    {
        let bp: &DataBreakpoint = &breakpoints[i];
        match read_data_id(bp.data_id.as_str()) {
            Err(e) => {
                return WatchPlan { watches, failure: Some(e) };
            },
            Ok((address, size)) => {
                let (read, write) = match bp.access_type {
                    Some(DataBreakpointAccessType::Read) => (true, false),
                    Some(DataBreakpointAccessType::Write) => (false, true),
                    Some(DataBreakpointAccessType::ReadWrite) => (true, true),
                    None => (false, true),
                };
                watches.push(WatchRequest { address, size, read, write });
            },
        }
        i = i + 1;
    }
    WatchPlan { watches, failure: None }
}

/// What is done before data breakpoints are set.
pub open spec fn clearing_actions() -> Seq<ActionView> {
    seq![ActionView::DeleteAllWatchpoints]
}

/// Reads the identifiers of breakpoints. All earlier watchpoints are deleted first, whether or not
/// the identifiers can be read. Where one cannot be read, the ranges before it are still watched.
pub fn handle_set_data_breakpoints(breakpoints: &Vec<DataBreakpoint>) -> (r: (
    Vec<Action>,
    WatchPlan,
))
    ensures
        r.0.deep_view() == clearing_actions(),
        plans(breakpoints@, r.1),
{
    let mut actions: Vec<Action> = Vec::new();
    actions.push(Action::DeleteAllWatchpoints);
    proof {
        assert(actions.deep_view() =~= clearing_actions());
    }
    (actions, plan_watches(breakpoints))
}

/// The breakpoint that a watched range is reported as.
pub open spec fn breakpoint_for(watch: WatchRequest, outcome: WatchOutcome) -> BreakpointView {
    match outcome {
        WatchOutcome::Watching(id) => BreakpointView {
            id: Some((id + WATCHPOINT_ID_BASE) as i64),
            verified: true,
            message: Some("Break on "@ + access_text(watch.read, watch.write)),
        },
        WatchOutcome::Refused(message) => BreakpointView {
            id: None,
            verified: false,
            message: Some(message@),
        },
    }
}

/// Whether `r` is the answer to a request for data breakpoints, where `outcomes` is what became of
/// the ranges of the plan.
pub open spec fn breakpoints_answered(
    plan: WatchPlan,
    outcomes: Seq<WatchOutcome>,
    r: Result<Vec<Breakpoint>, Error>,
) -> bool {
    match r {
        Ok(bps) => {
            &&& plan.failure is None
            &&& bps.deep_view() == Seq::new(
                plan.watches@.len(),
                |i: int| breakpoint_for(plan.watches@[i], outcomes[i]),
            )
        },
        Err(e) => plan.failure == Some(e),
    }
}

/// The answer to a request for data breakpoints, once the plan was carried out.
pub fn data_breakpoints_set(plan: WatchPlan, outcomes: &Vec<WatchOutcome>) -> (r: Result<
    Vec<Breakpoint>,
    Error,
>)
    requires
        outcomes@.len() == plan.watches@.len(),
    ensures
        breakpoints_answered(plan, outcomes@, r),
{
    match plan.failure {
        Some(e) => Err(e),
        None => {
            let mut bps: Vec<Breakpoint> = Vec::new();
            let mut i: usize = 0;
            while i < plan.watches.len()
                invariant
                    i <= plan.watches@.len(),
                    outcomes@.len() == plan.watches@.len(),
                    bps@.len() == i,
                    forall|j: int|
                        0 <= j < i ==> (#[trigger] bps@[j]).deep_view() == breakpoint_for(
                            plan.watches@[j],
                            outcomes@[j],
                        ),
                decreases plan.watches@.len() - i,
            {
                let watch: WatchRequest = plan.watches[i];
                let bp: Breakpoint = match &outcomes[i] {
                    WatchOutcome::Watching(id) => {
                        let mut message: String = "Break on ".to_owned();
                        if watch.read && watch.write {
                            message.append("read and write");
                        } else if watch.read {
                            message.append("read");
                        } else {
                            message.append("write");
                        }
                        Breakpoint {
                            id: Some(wpid_to_bpid(*id)),
                            verified: true,
                            message: Some(message),
                        }
                    },
                    WatchOutcome::Refused(message) => Breakpoint {
                        id: None,
                        verified: false,
                        message: Some(message.clone()),
                    },
                };
                bps.push(bp);
                i = i + 1;
            }
            proof {
                assert(bps.deep_view() =~= Seq::new(
                    plan.watches@.len(),
                    |i: int| breakpoint_for(plan.watches@[i], outcomes@[i]),
                ));
            }
            Ok(bps)
        },
    }
}

/// The breakpoint identifier that stands for a watchpoint.
pub fn wpid_to_bpid(id: u32) -> (r: i64)
    ensures
        r == id + WATCHPOINT_ID_BASE,
{
    id as i64 + WATCHPOINT_ID_BASE
}

/// The identifier of a range is read back as that range.
pub proof fn law_data_id_is_read_back(address: u64, size: usize)
    ensures
        data_id_range(data_id_text(address as nat, size as nat)) == Some((address, size)),
{
    let a = decimal(address as nat);
    let b = decimal(size as nat);
    let s = data_id_text(address as nat, size as nat);
    lemma_decimal_value(address as nat);
    lemma_decimal_value(size as nat);
    assert forall|j: int| 0 <= j < a.len() implies s[j] != '/' by {
        assert(s[j] == a[j]);
    }
    lemma_before_first(s, '/', a.len() as int);
    assert(s.take(a.len() as int) =~= a);
    assert(s.skip(a.len() as int + 1) =~= b);
    lemma_before_first(b, '/', b.len() as int);
    assert(b.take(b.len() as int) =~= b);
}

/// The address that an answer is about.
pub open spec fn answered_address(query: InfoQuery, answer: InfoAnswer) -> u64 {
    match answer {
        InfoAnswer::Child(value) => value->0.load_address,
        InfoAnswer::Address { .. } => query->address,
        InfoAnswer::Expression(value) => value.load_address,
    }
}

/// The size of the thing that an answer is about.
pub open spec fn answered_size(answer: InfoAnswer) -> i64 {
    match answer {
        InfoAnswer::Child(value) => value->0.byte_size as i64,
        InfoAnswer::Address { address_byte_size, .. } => address_byte_size as i64,
        InfoAnswer::Expression(value) => value.byte_size as i64,
    }
}

/// Whatever is reported as something to watch can be watched: the identifier that the answer
/// holds plans a watch of just the range that the answer is about.
pub proof fn law_reported_data_can_be_watched(
    args: DataBreakpointInfoArguments,
    query: InfoQuery,
    answer: InfoAnswer,
    bp: DataBreakpoint,
    plan: WatchPlan,
)
    requires
        info_for(args, query, answer).data_id == Some(bp.data_id@),
        plans(seq![bp], plan),
    ensures
        plan.failure is None,
        plan.watches@.len() == 1,
        plan.watches@[0].address == answered_address(query, answer),
        plan.watches@[0].size == watched_size(args.bytes, answered_size(answer)),
{
    law_data_id_is_read_back(
        answered_address(query, answer),
        watched_size(args.bytes, answered_size(answer)),
    );
    if plan.failure is Some {
        assert(seq![bp][0] == bp);
    } else {
        assert(watches_for(seq![bp][0], plan.watches@[0]));
    }
}

/// A request for data breakpoints succeeds just where all identifiers can be read. It then reports
/// one breakpoint for each that was asked for, in order, and each is verified just where the
/// debugger watches it. Otherwise just the ranges before the first bad identifier are watched.
pub proof fn law_data_breakpoints_are_reported_in_order(
    bps: Seq<DataBreakpoint>,
    plan: WatchPlan,
    outcomes: Seq<WatchOutcome>,
    r: Result<Vec<Breakpoint>, Error>,
)
    requires
        plans(bps, plan),
        outcomes.len() == plan.watches@.len(),
        breakpoints_answered(plan, outcomes, r),
    ensures
        r is Ok <==> forall|i: int|
            0 <= i < bps.len() ==> data_id_range((#[trigger] bps[i]).data_id@) is Some,
        r matches Ok(set) ==> {
            &&& set@.len() == bps.len()
            &&& forall|i: int|
                0 <= i < bps.len() ==> (#[trigger] set@[i]).verified == (outcomes[i] is Watching)
        },
        r is Err ==> {
            let n = plan.watches@.len() as int;
            &&& n < bps.len()
            &&& data_id_range(bps[n].data_id@) is None
            &&& forall|i: int|
                0 <= i < n ==> data_id_range((#[trigger] bps[i]).data_id@) == Some(
                    (plan.watches@[i].address, plan.watches@[i].size),
                )
        },
{
    let n = plan.watches@.len() as int;
    assert forall|i: int| 0 <= i < n implies data_id_range((#[trigger] bps[i]).data_id@) == Some(
        (plan.watches@[i].address, plan.watches@[i].size),
    ) by {
        assert(watches_for(bps[i], plan.watches@[i]));
    }
    if let Ok(set) = r {
        assert(set.deep_view().len() == set@.len());
        assert forall|i: int| 0 <= i < bps.len() implies (#[trigger] set@[i]).verified == (
        outcomes[i] is Watching) by {
            assert(set.deep_view()[i] == set@[i].deep_view());
            assert(set.deep_view()[i] == breakpoint_for(plan.watches@[i], outcomes[i]));
        }
    }
}

/// Watchpoints never share an identifier with each other, nor with a breakpoint whose identifier is
/// below the first of theirs.
pub proof fn law_watchpoint_ids_are_apart(id: u32, other: u32, breakpoint_id: i64)
    requires
        breakpoint_id < WATCHPOINT_ID_BASE,
    ensures
        id + WATCHPOINT_ID_BASE != breakpoint_id,
        id != other ==> id + WATCHPOINT_ID_BASE != other + WATCHPOINT_ID_BASE,
{
}

/// The watch that is planned for a data breakpoint triggers on writing just where the breakpoint is
/// for writing, for both or for nothing in particular, and on reading just where it is for reading or
/// for both.
pub proof fn law_watches_trigger_as_asked(bps: Seq<DataBreakpoint>, plan: WatchPlan, i: int)
    requires
        plans(bps, plan),
        0 <= i < plan.watches@.len(),
    ensures
        plan.watches@[i].write <==> bps[i].access_type is None || bps[i].access_type == Some(
            DataBreakpointAccessType::Write,
        ) || bps[i].access_type == Some(DataBreakpointAccessType::ReadWrite),
        plan.watches@[i].read <==> bps[i].access_type == Some(DataBreakpointAccessType::Read)
            || bps[i].access_type == Some(DataBreakpointAccessType::ReadWrite),
{
    assert(watches_for(bps[i], plan.watches@[i]));
}

/// A range that is watched is reported as verified, under an identifier of its own, with the access
/// at which it triggers. One that was refused is reported with the reason.
pub proof fn law_watches_are_reported_as_they_are(watch: WatchRequest, outcome: WatchOutcome)
    ensures
        ({
            let bp = breakpoint_for(watch, outcome);
            &&& bp.verified <==> outcome is Watching
            &&& outcome matches WatchOutcome::Watching(id) ==> {
                &&& bp.id is Some
                &&& bp.id->0 == id + 1_000_000
                &&& watch.read && watch.write ==> bp.message == Some(
                    "Break on "@ + "read and write"@,
                )
                &&& watch.read && !watch.write ==> bp.message == Some("Break on "@ + "read"@)
                &&& !watch.read && watch.write ==> bp.message == Some("Break on "@ + "write"@)
            }
            &&& outcome matches WatchOutcome::Refused(message) ==> bp.id is None && bp.message
                == Some(message@)
        }),
{
}

/// Setting data breakpoints starts by deleting those that are set.
pub proof fn law_old_watchpoints_are_deleted_first()
    ensures
        clearing_actions().len() == 1,
        clearing_actions()[0] is DeleteAllWatchpoints,
{
}

/// An identifier is an address and a size in decimal with a slash between them. What comes behind a
/// second slash does not matter, and without a slash or without a number on each side of it the
/// identifier stands for nothing.
pub proof fn law_identifiers_are_address_and_size(
    first: Seq<char>,
    second: Seq<char>,
    rest: Seq<char>,
)
    requires
        !first.contains('/'),
        !second.contains('/'),
    ensures
        ({
            let range = data_id_range(first + seq!['/'] + second);
            &&& range is Some <==> unsigned_value(first) is Some && unsigned_value(first)->0
                <= u64::MAX && unsigned_value(second) is Some && unsigned_value(second)->0
                <= usize::MAX
            &&& range matches Some((address, size)) ==> address == unsigned_value(first)->0 && size
                == unsigned_value(second)->0
            &&& data_id_range(first + seq!['/'] + second + seq!['/'] + rest) == range
            &&& data_id_range(first) is None
        }),
{
    lemma_identifier_parts(first, second);
    lemma_identifier_parts(first, second + seq!['/'] + rest);
    assert(first + seq!['/'] + second + seq!['/'] + rest =~= first + seq!['/'] + (second + seq![
        '/',
    ] + rest));
    assert forall|j: int| 0 <= j < second.len() implies second[j] != '/' by {
        if second[j] == '/' {
            assert(second.contains('/'));
        }
    }
    lemma_before_first(second, '/', second.len() as int);
    assert(second.take(second.len() as int) =~= second);
    let more = second + seq!['/'] + rest;
    assert forall|j: int| 0 <= j < second.len() implies more[j] != '/' by {
        assert(more[j] == second[j]);
    }
    lemma_before_first(more, '/', second.len() as int);
    assert(more.take(second.len() as int) =~= second);
}

proof fn lemma_identifier_parts(first: Seq<char>, rest: Seq<char>)
    requires
        !first.contains('/'),
    ensures
        before_first(first + seq!['/'] + rest, '/') == first,
        after_first(first + seq!['/'] + rest, '/') == Some(rest),
        after_first(first, '/') is None,
{
    let s = first + seq!['/'] + rest;
    let n = first.len() as int;
    assert forall|j: int| 0 <= j < n implies s[j] != '/' by {
        if first[j] == '/' {
            assert(first.contains('/'));
        }
        assert(s[j] == first[j]);
    }
    lemma_before_first(s, '/', n);
    assert(s.take(n) =~= first);
    assert(s.skip(n + 1) =~= rest);
}

/// What is wrong with an identifier is told of its first bad part: of the address if that is bad, or
/// else of the size, and nothing where there is no size.
pub proof fn law_bad_identifiers_are_told_apart(
    first: Seq<char>,
    second: Seq<char>,
    e: Error,
    e2: Error,
)
    requires
        !first.contains('/'),
        !second.contains('/'),
        data_id_refusal(first + seq!['/'] + second, e),
        data_id_refusal(first, e2),
    ensures
        e.blame == Blame::Internal,
        e2.blame == Blame::Internal,
        !(unsigned_value(first) is Some && unsigned_value(first)->0 <= u64::MAX) ==> e.message@
            == u64_refusal(first) && e2.message@ == u64_refusal(first),
        unsigned_value(first) is Some && unsigned_value(first)->0 <= u64::MAX ==> e2.message@
            == ""@ && (usize::BITS == 64 ==> e.message@ == u64_refusal(second)),
{
    lemma_identifier_parts(first, second);
    assert forall|j: int| 0 <= j < second.len() implies second[j] != '/' by {
        if second[j] == '/' {
            assert(second.contains('/'));
        }
    }
    lemma_before_first(second, '/', second.len() as int);
    assert(second.take(second.len() as int) =~= second);
    assert forall|j: int| 0 <= j < first.len() implies first[j] != '/' by {
        if first[j] == '/' {
            assert(first.contains('/'));
        }
    }
    lemma_before_first(first, '/', first.len() as int);
    assert(first.take(first.len() as int) =~= first);
}

/// As many bytes are watched as the client asked for, or else as the thing has.
pub proof fn law_asked_for_bytes_are_watched(bytes: Option<i64>, own_size: i64)
    ensures
        bytes matches Some(b) ==> (0 <= b <= usize::MAX ==> watched_size(bytes, own_size) == b),
        bytes is None && 0 <= own_size <= usize::MAX ==> watched_size(bytes, own_size) == own_size,
        bytes is Some ==> watched_size(bytes, own_size) == watched_size(bytes, 0),
{
}

/// A value can be watched just where it has an address, for any access, under an identifier of its
/// address and size. It is told how many bytes at which address it is, and under which name: its own,
/// or else none for a variable and the text of an expression.
pub proof fn law_values_with_an_address_can_be_watched(
    args: DataBreakpointInfoArguments,
    query: InfoQuery,
    value: FoundValue,
    in_container: bool,
)
    requires
        value.byte_size <= i64::MAX,
        value.byte_size <= usize::MAX,
        args.bytes matches Some(b) ==> 0 <= b <= usize::MAX,
    ensures
        ({
            let answer = if in_container {
                InfoAnswer::Child(Some(value))
            } else {
                InfoAnswer::Expression(value)
            };
            let info = info_for(args, query, answer);
            let size = match args.bytes {
                Some(b) => b as nat,
                None => value.byte_size as nat,
            };
            let name = if value.name is Some {
                value.name->0@
            } else if in_container {
                ""@
            } else {
                args.name@
            };
            &&& info.data_id is Some <==> value.load_address != u64::MAX
            &&& info.access_types is Some <==> value.load_address != u64::MAX
            &&& value.load_address != u64::MAX ==> {
                &&& info.data_id->0 == decimal(value.load_address as nat) + seq!['/'] + decimal(size)
                &&& info.access_types->0.len() == 3
                &&& info.access_types->0[0] == DataBreakpointAccessType::Read
                &&& info.access_types->0[1] == DataBreakpointAccessType::Write
                &&& info.access_types->0[2] == DataBreakpointAccessType::ReadWrite
                &&& info.description == decimal(size) + " bytes at "@ + hex_upper(
                    value.load_address as nat,
                ) + " ("@ + name + ")"@
            }
            &&& value.load_address == u64::MAX && in_container ==> info.description
                == "This variable doesn't have an address."@
            &&& value.load_address == u64::MAX && !in_container ==> info.description
                == "This value doesn't have an address."@
        }),
{
}

/// An address can be watched just where it could be read and resolves in the target, for any access.
/// A variable that was not found cannot be watched.
pub proof fn law_addresses_that_resolve_can_be_watched(
    args: DataBreakpointInfoArguments,
    frame_id: Option<i64>,
    address: u64,
    resolves: bool,
    address_byte_size: u32,
    variables_reference: i64,
)
    requires
        args.bytes matches Some(b) ==> 0 <= b <= usize::MAX,
    ensures
        ({
            let info = info_for(
                args,
                InfoQuery::Address { frame_id, address },
                InfoAnswer::Address { resolves, address_byte_size },
            );
            let size = match args.bytes {
                Some(b) => b as nat,
                None => address_byte_size as nat,
            };
            &&& info.data_id is Some <==> resolves && address != u64::MAX
            &&& info.data_id is Some ==> {
                &&& info.data_id->0 == decimal(address as nat) + seq!['/'] + decimal(size)
                &&& info.access_types is Some
                &&& info.access_types->0.len() == 3
                &&& info.access_types->0.contains(DataBreakpointAccessType::Read)
                &&& info.access_types->0.contains(DataBreakpointAccessType::Write)
                &&& info.access_types->0.contains(DataBreakpointAccessType::ReadWrite)
                &&& info.description == decimal(size) + " bytes at "@ + hex_upper(address as nat)
            }
            &&& info.data_id is None ==> info.access_types is None && info.description
                == "Invalid address "@ + decimal(address as nat)
        }),
        ({
            let info = info_for(
                args,
                InfoQuery::Child { variables_reference },
                InfoAnswer::Child(None),
            );
            &&& info.data_id is None
            &&& info.access_types is None
            &&& info.description == "Variable not found."@
        }),
{
    let types = watchable(address, 0, Seq::empty()).access_types->0;
    assert(types[0] == DataBreakpointAccessType::Read);
    assert(types[1] == DataBreakpointAccessType::Write);
    assert(types[2] == DataBreakpointAccessType::ReadWrite);
}

/// A question about a container is about a child of it, whatever else it holds. Another is about an
/// address just where it says so, and else about an expression. An address that cannot be read is no
/// address.
pub proof fn law_questions_ask_for_one_thing(args: DataBreakpointInfoArguments)
    ensures
        query_for(args) is Child <==> args.variables_reference is Some,
        args.variables_reference matches Some(reference) ==> query_for(args)->variables_reference
            == reference,
        query_for(args) is Address <==> args.variables_reference is None && args.as_address == Some(
            true,
        ),
        query_for(args) is Address ==> {
            &&& query_for(args)->Address_frame_id == args.frame_id
            &&& prefixed_u64(args.name@) matches Some(n) ==> query_for(args)->address == n
            &&& prefixed_u64(args.name@) is None ==> query_for(args)->address == u64::MAX
        },
        query_for(args) is Expression ==> query_for(args)->Expression_frame_id == args.frame_id,
{
}

/// Members are looked up in values, variables among locals, and globals and statics among their own.
/// Nothing is looked up in registers or in a frame itself.
pub proof fn law_children_are_looked_up_where_they_are(container: Container)
    ensures
        lookup_in(container) == ChildLookup::MemberWithName <==> container == Container::Value,
        lookup_in(container) == ChildLookup::Variable <==> container == Container::Locals,
        lookup_in(container) == ChildLookup::GlobalValue <==> container == Container::Globals,
        lookup_in(container) == ChildLookup::StaticValue <==> container == Container::Statics,
        lookup_in(container) == ChildLookup::Nothing <==> container == Container::Registers
            || container == Container::StackFrame,
{
}

/// A reference to a frame stands for that frame, or for the selected one of its thread once the user
/// has selected another. Any other reference stands for no frame.
pub proof fn law_selected_frames_are_preferred(s: DebugSession, container: Option<Container>)
    ensures
        chosen_frame(s, container) == FrameChoice::NoFrame <==> container != Some(
            Container::StackFrame,
        ),
        container == Some(Container::StackFrame) ==> (chosen_frame(s, container)
            == FrameChoice::SelectedInThread <==> s.selected_frame_changed),
        container == Some(Container::StackFrame) ==> (chosen_frame(s, container)
            == FrameChoice::Given <==> !s.selected_frame_changed),
{
}

/// The views of a breakpoint and of what can be watched have each of their parts, written as it is.
pub proof fn law_breakpoints_are_seen_as_they_are(bp: Breakpoint, info: DataBreakpointInfo)
    ensures
        bp.deep_view().id == bp.id,
        bp.deep_view().verified == bp.verified,
        bp.deep_view().message is Some == bp.message is Some,
        bp.message matches Some(text) ==> bp.deep_view().message->0 == text@,
        info@.description == info.description@,
        info@.data_id is Some == info.data_id is Some,
        info.data_id matches Some(text) ==> info@.data_id->0 == text@,
        info@.access_types is Some == info.access_types is Some,
        info.access_types matches Some(types) ==> info@.access_types->0 == types@,
{
}

/// A request that succeeds answers each breakpoint with what became of its own range. One that fails
/// tells what is wrong with the first bad identifier.
pub proof fn law_each_breakpoint_is_answered(
    bps: Seq<DataBreakpoint>,
    plan: WatchPlan,
    outcomes: Seq<WatchOutcome>,
    r: Result<Vec<Breakpoint>, Error>,
    i: int,
)
    requires
        plans(bps, plan),
        outcomes.len() == plan.watches@.len(),
        breakpoints_answered(plan, outcomes, r),
    ensures
        r matches Ok(set) ==> (0 <= i < bps.len() ==> {
            &&& outcomes[i] matches WatchOutcome::Watching(id) ==> set@[i].id is Some
                && set@[i].id->0 == id + 1_000_000
            &&& outcomes[i] matches WatchOutcome::Refused(text) ==> set@[i].id is None
                && set@[i].message is Some && set@[i].message->0@ == text@
        }),
        r matches Err(e) ==> {
            let n = plan.watches@.len() as int;
            &&& e.blame == Blame::Internal
            &&& data_id_refusal(bps[n].data_id@, e)
        },
{
    if let Ok(set) = r {
        if 0 <= i < bps.len() {
            assert(set.deep_view().len() == set@.len());
            assert(set.deep_view()[i] == set@[i].deep_view());
            assert(set.deep_view()[i] == breakpoint_for(plan.watches@[i], outcomes[i]));
        }
    }
}

}
