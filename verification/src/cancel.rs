//! Cancellation of requests that are under way.
use std::collections::HashMap;

use vstd::prelude::*;
use vstd::std_specs::hash::spec_hash_map_iter;
use vstd::std_specs::iter::IteratorSpec;

use crate::request::Command;

verus! {

/// Pairs requests with cancellation tokens. Some requests can be cancelled as a group, by a request
/// that makes the debuggee run or ends the session.
#[derive(Debug)]
pub struct CancellationFilter {
    pending: HashMap<u32, u64>,
    cancellable: Vec<u64>,
}

/// The requests under way with their tokens, and the tokens of the group, oldest first.
#[verifier::ext_equal]
pub struct FilterView {
    pub pending: Map<u32, u64>,
    pub cancellable: Seq<u64>,
}

/// What to do about a request: the tokens to activate, in order, and whether the request goes on
/// to the session.
#[derive(Debug)]
pub struct FilterDecision {
    pub activate: Vec<u64>,
    pub forward: bool,
}

/// The requests of the group that can be cancelled together.
pub open spec fn is_cancellable(command: Command) -> bool {
    match command {
        Command::Scopes | Command::Variables | Command::Evaluate => true,
        _ => false,
    }
}

/// The requests that cancel the group.
pub open spec fn cancels_group(command: Command) -> bool {
    match command {
        Command::Continue
        | Command::Pause
        | Command::Next
        | Command::StepIn
        | Command::StepOut
        | Command::StepBack
        | Command::ReverseContinue
        | Command::Terminate
        | Command::Disconnect => true,
        _ => false,
    }
}

/// The entries of `m` whose token is among `live`.
pub open spec fn live_part(m: Map<u32, u64>, live: Seq<u64>) -> Map<u32, u64> {
    Map::new(|k: u32| m.contains_key(k) && live.contains(m[k]), |k: u32| m[k])
}

/// What a filter holds once the requests that nobody waits for any more are dropped.
pub open spec fn swept(v: FilterView, live: Seq<u64>) -> FilterView {
    FilterView {
        pending: live_part(v.pending, live),
        cancellable: v.cancellable.filter(|t: u64| live.contains(t)),
    }
}

/// The token that a cancel request names.
pub open spec fn named_token(v: FilterView, request_id: Option<i64>) -> Option<u64> {
    match request_id {
        Some(id) => if v.pending.contains_key(id as u32) {
            Some(v.pending[id as u32])
        } else {
            None
        },
        None => None,
    }
}

/// What a filter holds after a request, where `v` is what it holds once swept.
pub open spec fn filter_after(
    v: FilterView,
    seq: u32,
    command: Command,
    request_id: Option<i64>,
    token: u64,
) -> FilterView {
    if command == Command::Cancel {
        match named_token(v, request_id) {
            Some(_) => FilterView {
                pending: v.pending.remove(request_id->0 as u32),
                cancellable: v.cancellable,
            },
            None => v,
        }
    } else {
        FilterView {
            pending: v.pending.insert(seq, token),
            cancellable: if is_cancellable(command) {
                v.cancellable.push(token)
            } else {
                v.cancellable
            },
        }
    }
}

/// The tokens that a request activates, where `v` is what the filter holds once swept.
pub open spec fn activated(v: FilterView, command: Command, request_id: Option<i64>) -> Seq<u64> {
    if command == Command::Cancel {
        match named_token(v, request_id) {
            Some(token) => seq![token],
            None => Seq::empty(),
        }
    } else if cancels_group(command) {
        v.cancellable
    } else {
        Seq::empty()
    }
}

/// Whether a request goes on to the session.
pub open spec fn goes_on(command: Command) -> bool {
    command != Command::Cancel
}

fn contains_token(v: &Vec<u64>, t: u64) -> (r: bool)
    ensures
        r == v@.contains(t),
{
    let mut i: usize = 0;
    while i < v.len()
        invariant
            i <= v@.len(),
            forall|j: int| 0 <= j < i ==> v@[j] != t,
        decreases v@.len() - i,
    {
        if v[i] == t {
            return true;
        }
        i = i + 1;
    }
    false
}

impl View for CancellationFilter {
    type V = FilterView;

    closed spec fn view(&self) -> FilterView {
        FilterView { pending: self.pending@, cancellable: self.cancellable@ }
    }
}

impl CancellationFilter {
    /// A filter that has seen no request.
    pub fn new() -> (f: CancellationFilter)
        ensures
            f@ == (FilterView { pending: Map::empty(), cancellable: Seq::empty() }),
    {
        CancellationFilter { pending: HashMap::new(), cancellable: Vec::new() }
    }

    fn sweep(&mut self, live: &Vec<u64>)
        ensures
            final(self)@ == swept(old(self)@, live@),
    {
        let ghost before = self.pending@;
        let mut kept: HashMap<u32, u64> = HashMap::new();
        for (seq, token) in it: self.pending.iter()
            invariant
                before == self.pending@,
                self.cancellable@ == old(self).cancellable@,
                it.seq() == spec_hash_map_iter(&self.pending).remaining(),
                forall|i: int|
                    #![trigger it.seq()[i]]
                    0 <= i < it.index() ==> (live@.contains(*it.seq()[i].1)
                        ==> kept@.contains_key(*it.seq()[i].0)),
                forall|k: u32| #[trigger]
                    kept@.contains_key(k) ==> before.contains_key(k) && kept@[k] == before[k]
                        && live@.contains(before[k]),
        {
            proof {
                assert(before.contains_key(*it.seq()[it.index() as int].0));
            }
            if contains_token(live, *token) {
                kept.insert(*seq, *token);
            }
        }
        proof {
            let all = spec_hash_map_iter(&self.pending).remaining();
            assert forall|k: u32| before.contains_key(k) && live@.contains(before[k]) implies
                #[trigger] kept@.contains_key(k) by {
                assert(all.contains((&k, &before[k])));
                let i = choose|i: int| 0 <= i < all.len() && all[i] == (&k, &before[k]);
                assert(live@.contains(*all[i].1));
            }
            assert(kept@ =~= live_part(before, live@));
        }
        let ghost group = self.cancellable@;
        let mut alive: Vec<u64> = Vec::new();
        let mut j: usize = 0;
        let ghost pred = |t: u64| live@.contains(t);
        proof {
            reveal(Seq::filter);
            assert(group.take(0).filter(pred) =~= Seq::empty());
        }
        while j < self.cancellable.len()
            invariant
                j <= group.len(),
                self.cancellable@ == group,
                pred == (|t: u64| live@.contains(t)),
                alive@ == group.take(j as int).filter(pred),
            decreases group.len() - j,
        {
            let t: u64 = self.cancellable[j];
            if contains_token(live, t) {
                alive.push(t);
            }
            proof {
                reveal(Seq::filter);
                assert(group.take(j as int + 1).drop_last() =~= group.take(j as int));
            }
            j = j + 1;
        }
        proof {
            assert(group.take(group.len() as int) =~= group);
        }
        self.pending = kept;
        self.cancellable = alive;
    }

    /// Takes in a request with a token of its own. `request_id` is what a cancel request names,
    /// and `live` are the tokens on which somebody still waits. A cancel request activates the
    /// token of the request that it names and goes no further.
    pub fn on_request(
        &mut self,
        seq: u32,
        command: Command,
        request_id: Option<i64>,
        token: u64,
        live: &Vec<u64>,
    ) -> (r: FilterDecision)
        ensures
            final(self)@ == filter_after(
                swept(old(self)@, live@),
                seq,
                command,
                request_id,
                token,
            ),
            r.activate@ == activated(swept(old(self)@, live@), command, request_id),
            r.forward == goes_on(command),
    {
        self.sweep(live);
        let ghost v = self@;
        let mut activate: Vec<u64> = Vec::new();
        match command {
            Command::Cancel => {
                match request_id {
                    Some(id) => {
                        let wanted: u32 = #[verifier::truncate] (id as u32);
                        let found: Option<u64> = self.pending.remove(&wanted);
                        match found {
                            Some(t) => {
                                activate.push(t);
                            },
                            None => {
                                proof {
                                    assert(self@.pending =~= v.pending);
                                }
                            },
                        }
                    },
                    None => {},
                }
                proof {
                    assert(self@ =~= filter_after(v, seq, command, request_id, token));
                    assert(activate@ =~= activated(v, command, request_id));
                }
                return FilterDecision { activate, forward: false };
            },
            Command::Scopes | Command::Variables | Command::Evaluate => {
                self.cancellable.push(token);
            },
            Command::Continue
            | Command::Pause
            | Command::Next
            | Command::StepIn
            | Command::StepOut
            | Command::StepBack
            | Command::ReverseContinue
            | Command::Terminate
            | Command::Disconnect => {
                let mut i: usize = 0;
                while i < self.cancellable.len()
                    invariant
                        i <= self.cancellable@.len(),
                        activate@ == self.cancellable@.take(i as int),
                    decreases self.cancellable@.len() - i,
                {
                    activate.push(self.cancellable[i]);
                    i = i + 1;
                    proof {
                        assert(activate@ =~= self.cancellable@.take(i as int));
                    }
                }
                proof {
                    assert(activate@ =~= self.cancellable@);
                }
            },
            _ => {},
        }
        self.pending.insert(seq, token);
        proof {
            assert(self@.pending =~= v.pending.insert(seq, token));
            assert(self@ =~= filter_after(v, seq, command, request_id, token));
            assert(activate@ =~= activated(v, command, request_id));
        }
        FilterDecision { activate, forward: true }
    }
}

/// A request of the group is cancelled by the next request that cancels the group, as long as
/// somebody waits for it.
pub proof fn law_group_is_cancelled(
    v: FilterView,
    seq: u32,
    command: Command,
    token: u64,
    live: Seq<u64>,
    later: Command,
)
    requires
        is_cancellable(command),
        cancels_group(later),
        live.contains(token),
    ensures
        activated(swept(filter_after(v, seq, command, None, token), live), later, None).contains(
            token,
        ),
{
    let after = filter_after(v, seq, command, None, token);
    let pred = |t: u64| live.contains(t);
    assert(after.cancellable[after.cancellable.len() - 1] == token);
    after.cancellable.lemma_filter_contains(pred, after.cancellable.len() - 1);
}

/// A request that is forwarded can be cancelled by its number, as long as somebody waits for it.
/// It is then forgotten, so that cancelling it again does nothing.
pub proof fn law_cancel_reaches_the_named_request(
    v: FilterView,
    seq: u32,
    command: Command,
    token: u64,
    live: Seq<u64>,
    id: i64,
)
    requires
        command != Command::Cancel,
        id as u32 == seq,
        live.contains(token),
    ensures
        ({
            let held = swept(filter_after(v, seq, command, None, token), live);
            let after = filter_after(held, 0, Command::Cancel, Some(id), 0);
            &&& activated(held, Command::Cancel, Some(id)) == seq![token]
            &&& activated(after, Command::Cancel, Some(id)) == Seq::<u64>::empty()
        }),
{
}

/// A request that somebody waits for stays with the filter, whatever other requests come: it keeps
/// its place in the group, and it can be named until it is cancelled by its number or the number is
/// used again.
pub proof fn law_waiting_requests_stay(
    v: FilterView,
    live: Seq<u64>,
    seq: u32,
    command: Command,
    request_id: Option<i64>,
    token: u64,
    waiting: u32,
)
    requires
        v.pending.contains_key(waiting),
        live.contains(v.pending[waiting]),
    ensures
        ({
            let held = swept(v, live);
            let after = filter_after(held, seq, command, request_id, token);
            &&& v.cancellable.contains(v.pending[waiting]) ==> after.cancellable.contains(
                v.pending[waiting],
            )
            &&& (command == Command::Cancel ==> request_id is None || request_id->0 as u32
                != waiting) && (command != Command::Cancel ==> seq != waiting)
                ==> after.pending.contains_key(waiting) && after.pending[waiting]
                == v.pending[waiting]
        }),
{
    let own = v.pending[waiting];
    let held = swept(v, live);
    let after = filter_after(held, seq, command, request_id, token);
    let pred = |t: u64| live.contains(t);
    if v.cancellable.contains(own) {
        let i = choose|i: int| 0 <= i < v.cancellable.len() && v.cancellable[i] == own;
        v.cancellable.lemma_filter_contains(pred, i);
        let j = choose|j: int| 0 <= j < held.cancellable.len() && held.cancellable[j] == own;
        assert(after.cancellable[j] == own);
    }
}

/// Nothing is activated that nobody waits for.
pub proof fn law_only_live_requests_are_cancelled(
    v: FilterView,
    live: Seq<u64>,
    command: Command,
    request_id: Option<i64>,
)
    ensures
        forall|t: u64| #[trigger]
            activated(swept(v, live), command, request_id).contains(t) ==> live.contains(t),
{
    let held = swept(v, live);
    let pred = |t: u64| live.contains(t);
    assert forall|t: u64| #[trigger]
        activated(held, command, request_id).contains(t) implies live.contains(t) by {
        let s = activated(held, command, request_id);
        let i = choose|i: int| 0 <= i < s.len() && s[i] == t;
        if command != Command::Cancel && cancels_group(command) {
            v.cancellable.lemma_filter_pred(pred, i);
        }
    }
}

/// A request that neither cancels the group nor is a cancel request cancels nothing.
pub proof fn law_other_requests_cancel_nothing(v: FilterView, command: Command, id: Option<i64>)
    requires
        command != Command::Cancel,
        !cancels_group(command),
    ensures
        activated(v, command, id) == Seq::<u64>::empty(),
{
}

/// Requests under way are cancelled as a group by continuing, pausing, stepping in any direction,
/// running backwards, terminating and disconnecting: each of these cancels the whole group, oldest
/// first. Every other request but a cancel request cancels nothing at all, nor does a cancel request
/// cancel a group.
pub proof fn law_only_these_requests_cancel_the_group(
    v: FilterView,
    command: Command,
    request_id: Option<i64>,
)
    ensures
        command == Command::Continue || command == Command::Pause || command == Command::Next
            || command == Command::StepIn || command == Command::StepOut || command
            == Command::StepBack || command == Command::ReverseContinue || command
            == Command::Terminate || command == Command::Disconnect ==> activated(
            v,
            command,
            request_id,
        ) == v.cancellable,
        activated(v, command, request_id).len() > 0 ==> {
            ||| command == Command::Cancel
            ||| command == Command::Continue
            ||| command == Command::Pause
            ||| command == Command::Next
            ||| command == Command::StepIn
            ||| command == Command::StepOut
            ||| command == Command::StepBack
            ||| command == Command::ReverseContinue
            ||| command == Command::Terminate
            ||| command == Command::Disconnect
        },
        command == Command::Cancel ==> activated(v, command, request_id).len() <= 1,
{
}

/// Asking for scopes, for variables and for the value of an expression joins the group, last in
/// order. No other request joins it, and none takes anything out of it.
pub proof fn law_only_these_requests_join_the_group(
    v: FilterView,
    seq: u32,
    command: Command,
    request_id: Option<i64>,
    token: u64,
)
    ensures
        ({
            let group = filter_after(v, seq, command, request_id, token).cancellable;
            &&& command == Command::Scopes || command == Command::Variables || command
                == Command::Evaluate ==> group == v.cancellable.push(token)
            &&& command != Command::Scopes && command != Command::Variables && command
                != Command::Evaluate ==> group == v.cancellable
        }),
{
}

/// A cancel request reaches the request under way whose number it names, and no other: it activates
/// just the token of that request, which is then no longer under way, and all others still are. One
/// that names no request under way changes nothing.
pub proof fn law_cancel_reaches_one_request(
    v: FilterView,
    seq: u32,
    request_id: Option<i64>,
    token: u64,
    other: u32,
)
    ensures
        ({
            let after = filter_after(v, seq, Command::Cancel, request_id, token);
            let cancelled = activated(v, Command::Cancel, request_id);
            &&& request_id is Some && v.pending.contains_key(request_id->0 as u32) ==> {
                &&& cancelled == seq![v.pending[request_id->0 as u32]]
                &&& !after.pending.contains_key(request_id->0 as u32)
                &&& other != request_id->0 as u32 ==> (after.pending.contains_key(other)
                    <==> v.pending.contains_key(other)) && (v.pending.contains_key(other)
                    ==> after.pending[other] == v.pending[other])
            }
            &&& request_id is None || !v.pending.contains_key(request_id->0 as u32) ==> {
                &&& cancelled.len() == 0
                &&& after == v
            }
        }),
{
}

/// Every request but a cancel request goes on to the session and is under way from then on, with its
/// own token, and leaves all others as they are.
pub proof fn law_requests_are_under_way(
    v: FilterView,
    seq: u32,
    command: Command,
    request_id: Option<i64>,
    token: u64,
    other: u32,
)
    ensures
        goes_on(command) <==> command != Command::Cancel,
        goes_on(command) ==> ({
            let after = filter_after(v, seq, command, request_id, token);
            &&& after.pending.contains_key(seq)
            &&& after.pending[seq] == token
            &&& other != seq ==> (after.pending.contains_key(other) <==> v.pending.contains_key(
                other,
            ))
            &&& other != seq && v.pending.contains_key(other) ==> after.pending[other]
                == v.pending[other]
        }),
{
}

/// Just the requests that somebody waits for are kept, with their tokens, and the group keeps its
/// order.
pub proof fn law_requests_nobody_waits_for_are_dropped(
    v: FilterView,
    live: Seq<u64>,
    seq: u32,
    token: u64,
)
    ensures
        swept(v, live).pending.contains_key(seq) <==> v.pending.contains_key(seq) && live.contains(
            v.pending[seq],
        ),
        swept(v, live).pending.contains_key(seq) ==> swept(v, live).pending[seq] == v.pending[seq],
        swept(v, live).cancellable.contains(token) <==> v.cancellable.contains(token)
            && live.contains(token),
        swept(
            FilterView { pending: v.pending, cancellable: v.cancellable.push(token) },
            live,
        ).cancellable == if live.contains(token) {
            swept(v, live).cancellable.push(token)
        } else {
            swept(v, live).cancellable
        },
{
    let pred = |t: u64| live.contains(t);
    let kept = v.cancellable.filter(pred);
    if kept.contains(token) {
        let i = choose|i: int| 0 <= i < kept.len() && kept[i] == token;
        v.cancellable.lemma_filter_pred(pred, i);
        v.cancellable.lemma_filter_contains_rev(pred, token);
    }
    if v.cancellable.contains(token) && live.contains(token) {
        let i = choose|i: int| 0 <= i < v.cancellable.len() && v.cancellable[i] == token;
        v.cancellable.lemma_filter_contains(pred, i);
    }
    reveal(Seq::filter);
    assert(v.cancellable.push(token).drop_last() =~= v.cancellable);
}

}
