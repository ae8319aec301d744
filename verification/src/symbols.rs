//! Searching the symbols of the debuggee.
use vstd::prelude::*;

use crate::outside::fuzzy_matches;
use crate::protocol::{Source, SourceView};
use crate::stack::LocalSource;
use crate::text::{address_string, address_text, occurs_in_order};

verus! {

/// What a symbol stands for.
#[derive(Clone, Copy, Debug, PartialEq, Eq, Structural)]
pub enum SymbolType {
    Code,
    Data,
    Other,
}

/// A symbol, as the debugger describes it. `location` is its local source file and its line, where
/// there is one.
#[derive(Debug)]
pub struct SymbolInfo {
    pub symbol_type: SymbolType,
    pub name: String,
    pub address: u64,
    pub location: Option<(LocalSource, u32)>,
}

/// A symbol, as the client sees it.
#[derive(Debug)]
pub struct Symbol {
    pub name: String,
    pub type_: String,
    pub address: String,
    pub location: Option<(Source, u32)>,
}

#[verifier::ext_equal]
pub struct SymbolView {
    pub name: Seq<char>,
    pub type_: Seq<char>,
    pub address: Seq<char>,
    pub location: Option<(SourceView, u32)>,
}

impl DeepView for Symbol {
    type V = SymbolView;

    open spec fn deep_view(&self) -> SymbolView {
        SymbolView {
            name: self.name@,
            type_: self.type_@,
            address: self.address@,
            location: match self.location {
                Some((source, line)) => Some((source.deep_view(), line)),
                None => None,
            },
        }
    }
}

/// Whether a search for `filter` is for this symbol: it is code or data, and the characters of the
/// filter occur in its name in order.
pub open spec fn is_wanted(filter: Seq<char>, symbol_type: SymbolType, name: Seq<char>) -> bool {
    symbol_type != SymbolType::Other && occurs_in_order(name, filter)
}

/// A symbol that was found, as the client sees it.
pub open spec fn symbol_view(info: SymbolInfo) -> SymbolView {
    SymbolView {
        name: info.name@,
        type_: match info.symbol_type {
            SymbolType::Code => "Code"@,
            SymbolType::Data => "Data"@,
            SymbolType::Other => "Other"@,
        },
        address: address_text(info.address as nat),
        location: match info.location {
            Some((local, line)) => Some(
                (
                    SourceView {
                        name: Some(local.name@),
                        path: Some(local.path@),
                        source_reference: None,
                    },
                    line,
                ),
            ),
            None => None,
        },
    }
}

/// The symbols among `seen` that a search for `filter` is for, in the same order.
pub open spec fn found_among(filter: Seq<char>, seen: Seq<SymbolInfo>) -> Seq<SymbolView>
    decreases seen.len(),
{
    if seen.len() == 0 {
        Seq::empty()
    } else {
        let before = found_among(filter, seen.drop_last());
        if is_wanted(filter, seen.last().symbol_type, seen.last().name@) {
            before.push(symbol_view(seen.last()))
        } else {
            before
        }
    }
}

/// A search that looks at one symbol after the other.
#[derive(Debug)]
pub struct SymbolSearch {
    pub filter: String,
    pub max_results: u32,
    pub symbols: Vec<Symbol>,
    /// Whether enough was found.
    pub done: bool,
}

/// Whether `after` is the search `before` once it has looked at a symbol. Whether enough was found
/// is decided after every symbol, wanted or not.
pub open spec fn symbol_taken(before: SymbolSearch, info: SymbolInfo, after: SymbolSearch) -> bool {
    &&& after.filter == before.filter
    &&& after.max_results == before.max_results
    &&& after.symbols.deep_view() == if is_wanted(
        before.filter@,
        info.symbol_type,
        info.name@,
    ) {
        before.symbols.deep_view().push(symbol_view(info))
    } else {
        before.symbols.deep_view()
    }
    &&& after.done == (after.symbols@.len() >= before.max_results)
}

/// Whether a search for `filter` has not looked at any symbol yet.
pub open spec fn search_fresh(filter: Seq<char>, max_results: u32, search: SymbolSearch) -> bool {
    &&& search.filter@ == filter
    &&& search.max_results == max_results
    &&& search.symbols@.len() == 0
    &&& !search.done
}

impl SymbolSearch {
    /// Starts to search for symbols.
    pub fn handle_symbols(filter: String, max_results: u32) -> (r: SymbolSearch)
        ensures
            search_fresh(filter@, max_results, r),
    {
        SymbolSearch { filter, max_results, symbols: Vec::new(), done: false }
    }

    /// Whether the search is for a symbol of this type and name.
    pub fn wants(&self, symbol_type: SymbolType, name: &str) -> (r: bool)
        ensures
            r == is_wanted(self.filter@, symbol_type, name@),
    {
        match symbol_type {
            SymbolType::Code | SymbolType::Data => fuzzy_matches(name, self.filter.as_str()),
            SymbolType::Other => false,
        }
    }

    /// Looks at the next symbol. Of one that is not wanted, its address and location do not matter.
    pub fn symbol_seen(&mut self, info: &SymbolInfo)
        requires
            !old(self).done,
        ensures
            symbol_taken(*old(self), *info, *final(self)),
    {
        let ghost before = self.symbols.deep_view();
        if self.wants(info.symbol_type, info.name.as_str()) {
            let location: Option<(Source, u32)> = match &info.location {
                Some((local, line)) => Some(
                    (
                        Source {
                            name: Some(local.name.clone()),
                            path: Some(local.path.clone()),
                            source_reference: None,
                        },
                        *line,
                    ),
                ),
                None => None,
            };
            let type_: &str = match info.symbol_type {
                SymbolType::Code => "Code",
                SymbolType::Data => "Data",
                SymbolType::Other => "Other",
            };
            let symbol = Symbol {
                name: info.name.clone(),
                type_: type_.to_owned(),
                address: address_string(info.address),
                location,
            };
            let ghost v = symbol.deep_view();
            self.symbols.push(symbol);
            proof {
                assert(v =~= symbol_view(*info));
                assert(self.symbols.deep_view() =~= before.push(v));
            }
        }
        self.done = self.symbols.len() >= self.max_results as usize;
    }
}

/// A search finds the symbols that it is for, each of them once and in the order in which it looked
/// at them.
pub proof fn law_search_finds_all_that_is_wanted(
    seen: Seq<SymbolInfo>,
    info: SymbolInfo,
    before: SymbolSearch,
    after: SymbolSearch,
)
    requires
        before.symbols.deep_view() == found_among(before.filter@, seen),
        symbol_taken(before, info, after),
    ensures
        after.symbols.deep_view() == found_among(after.filter@, seen.push(info)),
{
    assert(seen.push(info).drop_last() =~= seen);
}

/// A search for at least one symbol goes on just as long as it has found fewer than it is to find,
/// and never finds more.
pub proof fn law_search_stops_at_its_limit(
    info: SymbolInfo,
    before: SymbolSearch,
    after: SymbolSearch,
)
    requires
        before.max_results > 0,
        before.symbols@.len() < before.max_results,
        symbol_taken(before, info, after),
    ensures
        after.symbols@.len() <= after.max_results,
        after.done <==> after.symbols@.len() == after.max_results,
{
    assert(before.symbols.deep_view().len() == before.symbols@.len());
    assert(after.symbols.deep_view().len() == after.symbols@.len());
}

/// Whether `states` are the states of a search that looks at the symbols of the debuggee, `all`, one
/// after the other, until it has found enough or there are no more.
pub open spec fn whole_search(
    filter: Seq<char>,
    max_results: u32,
    all: Seq<SymbolInfo>,
    states: Seq<SymbolSearch>,
) -> bool {
    &&& 0 < states.len() <= all.len() + 1
    &&& search_fresh(filter, max_results, states[0])
    &&& forall|i: int|
        0 <= i < states.len() - 1 ==> !(#[trigger] states[i]).done && symbol_taken(
            states[i],
            all[i],
            states[i + 1],
        )
    &&& states.last().done || states.len() == all.len() + 1
}

proof fn lemma_search_so_far(
    filter: Seq<char>,
    max_results: u32,
    all: Seq<SymbolInfo>,
    states: Seq<SymbolSearch>,
    n: int,
)
    requires
        whole_search(filter, max_results, all, states),
        max_results > 0,
        0 <= n < states.len(),
    ensures
        states[n].filter@ == filter,
        states[n].max_results == max_results,
        states[n].symbols.deep_view() == found_among(filter, all.take(n)),
        states[n].symbols@.len() <= max_results,
        states[n].done <==> states[n].symbols@.len() == max_results,
    decreases n,
{
    assert(states[n].symbols.deep_view().len() == states[n].symbols@.len());
    if n == 0 {
        assert(states[0].symbols.deep_view() =~= found_among(filter, all.take(0)));
    } else {
        lemma_search_so_far(filter, max_results, all, states, n - 1);
        let before = states[n - 1];
        assert(!before.done && symbol_taken(before, all[n - 1], states[n - 1 + 1]));
        law_search_finds_all_that_is_wanted(all.take(n - 1), all[n - 1], before, states[n]);
        assert(all.take(n - 1).push(all[n - 1]) =~= all.take(n));
        law_search_stops_at_its_limit(all[n - 1], before, states[n]);
    }
}

proof fn lemma_found_is_prefix(filter: Seq<char>, all: Seq<SymbolInfo>, n: int)
    requires
        0 <= n <= all.len(),
    ensures
        found_among(filter, all.take(n)).is_prefix_of(found_among(filter, all)),
    decreases all.len() - n,
{
    if n == all.len() {
        assert(all.take(n) =~= all);
    } else {
        lemma_found_is_prefix(filter, all, n + 1);
        assert(all.take(n + 1).drop_last() =~= all.take(n));
        let now = found_among(filter, all.take(n));
        let next = found_among(filter, all.take(n + 1));
        let end = found_among(filter, all);
        assert(now.is_prefix_of(end)) by {
            assert forall|i: int| 0 <= i < now.len() implies end[i] == now[i] by {
                assert(next[i] == now[i]);
                assert(end.subrange(0, next.len() as int)[i] == next[i]);
            }
            assert(end.subrange(0, now.len() as int) =~= now);
        }
    }
}

/// A whole search for at least one symbol gives the first of the symbols that it is for, as many as
/// it is to find, in the order in which the debuggee has them.
pub proof fn law_whole_search_gives_the_first_matches(
    filter: Seq<char>,
    max_results: u32,
    all: Seq<SymbolInfo>,
    states: Seq<SymbolSearch>,
)
    requires
        whole_search(filter, max_results, all, states),
        max_results > 0,
    ensures
        ({
            let found = found_among(filter, all);
            let given = states.last().symbols.deep_view();
            given == if found.len() <= max_results {
                found
            } else {
                found.take(max_results as int)
            }
        }),
{
    let n = states.len() - 1;
    let found = found_among(filter, all);
    let given = states[n].symbols.deep_view();
    lemma_search_so_far(filter, max_results, all, states, n);
    lemma_found_is_prefix(filter, all, n);
    assert(given.len() == states[n].symbols@.len());
    assert(given =~= found.subrange(0, given.len() as int));
    if states.len() == all.len() + 1 {
        assert(all.take(n) =~= all);
    }
    if given.len() == max_results {
        assert(found.take(max_results as int) =~= given);
    }
}

/// Where a walk over the symbols of all modules stands: at the symbol `symbol` of the module
/// `module`. The number of symbols of that module is known once the debugger has told it.
#[derive(Clone, Copy, Debug, PartialEq, Eq, Structural)]
pub struct SymbolWalk {
    pub num_modules: u32,
    pub module: u32,
    pub num_symbols: Option<u32>,
    pub symbol: u32,
}

/// What a walk does next.
#[derive(Clone, Copy, Debug, PartialEq, Eq, Structural)]
pub enum WalkStep {
    /// Ask for the number of symbols of this module.
    CountSymbols(u32),
    /// Look at this symbol.
    Look { module: u32, symbol: u32 },
    /// Nothing: all symbols were looked at.
    End,
}

/// The symbols of the first modules, in the order in which the debugger numbers them, where `counts`
/// are the numbers of their symbols.
pub open spec fn symbols_of(counts: Seq<u32>) -> Seq<(u32, u32)>
    decreases counts.len(),
{
    if counts.len() == 0 {
        Seq::empty()
    } else {
        symbols_of(counts.drop_last()) + symbols_in((counts.len() - 1) as u32, counts.last())
    }
}

/// The first symbols of a module.
pub open spec fn symbols_in(module: u32, count: u32) -> Seq<(u32, u32)> {
    Seq::new(count as nat, |k: int| (module, k as u32))
}

impl SymbolWalk {
    /// A walk over the symbols of `num_modules` modules that has not looked at any.
    pub open spec fn fresh(num_modules: u32) -> SymbolWalk {
        SymbolWalk { num_modules, module: 0, num_symbols: None, symbol: 0 }
    }

    /// Whether a walk stands at a symbol, or before a module, or at the end.
    pub open spec fn wf(&self) -> bool {
        &&& self.module <= self.num_modules
        &&& match self.num_symbols {
            Some(n) => self.module < self.num_modules && self.symbol < n,
            None => self.symbol == 0,
        }
    }

    /// What the walk does next.
    pub open spec fn upcoming(&self) -> WalkStep {
        if self.module >= self.num_modules {
            WalkStep::End
        } else if self.num_symbols is None {
            WalkStep::CountSymbols(self.module)
        } else {
            WalkStep::Look { module: self.module, symbol: self.symbol }
        }
    }

    /// The walk once the debugger has told how many symbols its module has. A module without
    /// symbols is left at once.
    pub open spec fn after_count(&self, num_symbols: u32) -> SymbolWalk {
        if num_symbols > 0 {
            SymbolWalk { num_symbols: Some(num_symbols), ..*self }
        } else {
            SymbolWalk { module: (self.module + 1) as u32, ..*self }
        }
    }

    /// The walk once it has looked at its symbol. Behind the last symbol of a module comes the next
    /// module.
    pub open spec fn after_look(&self) -> SymbolWalk {
        if self.symbol + 1 < self.num_symbols->0 {
            SymbolWalk { symbol: (self.symbol + 1) as u32, ..*self }
        } else {
            SymbolWalk {
                num_modules: self.num_modules,
                module: (self.module + 1) as u32,
                num_symbols: None,
                symbol: 0,
            }
        }
    }

    /// A walk over the symbols of `num_modules` modules.
    pub fn new(num_modules: u32) -> (w: SymbolWalk)
        ensures
            w == SymbolWalk::fresh(num_modules),
            w.wf(),
    {
        SymbolWalk { num_modules, module: 0, num_symbols: None, symbol: 0 }
    }

    /// What to do next.
    pub fn step(&self) -> (r: WalkStep)
        ensures
            r == self.upcoming(),
    {
        if self.module >= self.num_modules {
            WalkStep::End
        } else {
            match self.num_symbols {
                None => WalkStep::CountSymbols(self.module),
                Some(_) => WalkStep::Look { module: self.module, symbol: self.symbol },
            }
        }
    }

    /// Takes in the number of symbols of the module that was asked for.
    pub fn counted(&mut self, num_symbols: u32)
        requires
            old(self).wf(),
            old(self).upcoming() is CountSymbols,
        ensures
            *final(self) == old(self).after_count(num_symbols),
            final(self).wf(),
    {
        if num_symbols > 0 {
            self.num_symbols = Some(num_symbols);
        } else {
            self.module = self.module + 1;
        }
    }

    /// Goes on behind the symbol that was looked at.
    pub fn looked(&mut self)
        requires
            old(self).wf(),
            old(self).upcoming() is Look,
        ensures
            *final(self) == old(self).after_look(),
            final(self).wf(),
    {
        let count: u32 = self.num_symbols.unwrap_or(0);
        if self.symbol + 1 < count {
            self.symbol = self.symbol + 1;
        } else {
            self.module = self.module + 1;
            self.num_symbols = None;
            self.symbol = 0;
        }
    }
}

/// Whether `states` are the states of a walk over modules with these numbers of symbols, from its
/// start on.
pub open spec fn walked(counts: Seq<u32>, states: Seq<SymbolWalk>) -> bool {
    &&& counts.len() <= u32::MAX
    &&& states.len() > 0
    &&& states[0] == SymbolWalk::fresh(counts.len() as u32)
    &&& forall|i: int|
        0 <= i < states.len() - 1 ==> match (#[trigger] states[i]).upcoming() {
            WalkStep::CountSymbols(m) => states[i + 1] == states[i].after_count(counts[m as int]),
            WalkStep::Look { .. } => states[i + 1] == states[i].after_look(),
            WalkStep::End => false,
        }
}

/// The symbols that a walk looks at in these states, in order.
pub open spec fn looks(states: Seq<SymbolWalk>) -> Seq<(u32, u32)>
    decreases states.len(),
{
    if states.len() == 0 {
        Seq::empty()
    } else {
        match states.last().upcoming() {
            WalkStep::Look { module, symbol } => looks(states.drop_last()).push((module, symbol)),
            _ => looks(states.drop_last()),
        }
    }
}

spec fn looked_at(walk: SymbolWalk, counts: Seq<u32>) -> Seq<(u32, u32)> {
    symbols_of(counts.take(walk.module as int)) + symbols_in(walk.module, walk.symbol)
}

proof fn lemma_walked_so_far(counts: Seq<u32>, states: Seq<SymbolWalk>, n: int)
    requires
        walked(counts, states),
        0 <= n < states.len(),
    ensures
        states[n].wf(),
        states[n].num_modules == counts.len(),
        states[n].num_symbols matches Some(k) ==> k == counts[states[n].module as int],
        looks(states.take(n)) == looked_at(states[n], counts),
    decreases n,
{
    let now = states[n];
    if n == 0 {
        assert(looks(states.take(0)) =~= looked_at(now, counts));
    } else {
        lemma_walked_so_far(counts, states, n - 1);
        let before = states[n - 1];
        let m = before.module as int;
        assert(states[n - 1 + 1] == now);
        assert(states.take(n).drop_last() =~= states.take(n - 1));
        assert(states.take(n).last() == before);
        assert(!(before.upcoming() is End));
        lemma_symbols_of_next(counts, m);
        assert(looks(states.take(n)) =~= looked_at(now, counts));
    }
}

proof fn lemma_symbols_of_next(counts: Seq<u32>, m: int)
    requires
        0 <= m < counts.len() <= u32::MAX,
    ensures
        symbols_of(counts.take(m + 1)) == symbols_of(counts.take(m)) + symbols_in(
            m as u32,
            counts[m],
        ),
{
    assert(counts.take(m + 1).drop_last() =~= counts.take(m));
}

proof fn lemma_symbols_before_the_rest(counts: Seq<u32>, m: int)
    requires
        0 <= m <= counts.len() <= u32::MAX,
    ensures
        symbols_of(counts.take(m)).is_prefix_of(symbols_of(counts)),
    decreases counts.len() - m,
{
    if m == counts.len() {
        assert(counts.take(m) =~= counts);
    } else {
        lemma_symbols_before_the_rest(counts, m + 1);
        lemma_symbols_of_next(counts, m);
        let now = symbols_of(counts.take(m));
        let next = symbols_of(counts.take(m + 1));
        let all = symbols_of(counts);
        assert forall|i: int| 0 <= i < now.len() implies all[i] == now[i] by {
            assert(next[i] == now[i]);
            assert(all.subrange(0, next.len() as int)[i] == next[i]);
        }
        assert(all.subrange(0, now.len() as int) =~= now);
    }
}

/// A walk looks at the symbols of one module after the other, each once and in order: what it has
/// looked at is always the beginning of all symbols, and at its end it is all of them.
pub proof fn law_walk_looks_at_all_symbols_in_order(counts: Seq<u32>, states: Seq<SymbolWalk>)
    requires
        walked(counts, states),
    ensures
        looks(states).is_prefix_of(symbols_of(counts)),
        states.last().upcoming() is End ==> looks(states) == symbols_of(counts),
{
    let n = states.len() - 1;
    lemma_walked_so_far(counts, states, n);
    let last = states[n];
    let m = last.module as int;
    let all = symbols_of(counts);
    let seen = looks(states);
    assert(states.drop_last() =~= states.take(n));
    if m == counts.len() {
        assert(counts.take(m) =~= counts);
        assert(seen =~= all);
        assert(all.subrange(0, all.len() as int) =~= all);
    } else {
        lemma_symbols_before_the_rest(counts, m + 1);
        lemma_symbols_of_next(counts, m);
        let next = symbols_of(counts.take(m + 1));
        assert(seen.len() <= next.len());
        assert forall|i: int| 0 <= i < seen.len() implies all[i] == seen[i] by {
            assert(next[i] == seen[i]);
            assert(all.subrange(0, next.len() as int)[i] == next[i]);
        }
        assert(all.subrange(0, seen.len() as int) =~= seen);
    }
}

/// A search is for code and data alike, and for nothing else, whose name holds the characters of the
/// filter in order.
pub proof fn law_searches_are_for_code_and_data(filter: Seq<char>, name: Seq<char>)
    ensures
        !is_wanted(filter, SymbolType::Other, name),
        is_wanted(filter, SymbolType::Code, name) <==> occurs_in_order(name, filter),
        is_wanted(filter, SymbolType::Data, name) <==> occurs_in_order(name, filter),
        is_wanted(Seq::empty(), SymbolType::Code, name),
{
}

/// A symbol that was found is told with its own name, what it stands for, its address in memory, and
/// its local source file and line just where it has one.
pub proof fn law_found_symbols_are_told_in_full(info: SymbolInfo)
    ensures
        ({
            let symbol = symbol_view(info);
            &&& symbol.name == info.name@
            &&& info.symbol_type == SymbolType::Code ==> symbol.type_ == "Code"@
            &&& info.symbol_type == SymbolType::Data ==> symbol.type_ == "Data"@
            &&& info.symbol_type == SymbolType::Other ==> symbol.type_ == "Other"@
            &&& symbol.address == address_text(info.address as nat)
            &&& symbol.location is Some <==> info.location is Some
            &&& symbol.location matches Some((source, line)) ==> (info.location matches Some(
                (local, own_line),
            ) && source.name == Some(local.name@) && source.path == Some(local.path@)
                && source.source_reference is None && line == own_line)
        }),
{
}

/// A symbol is found once where it is wanted, and changes nothing where it is not. Whether enough was
/// found is decided after each symbol by the number of those that were.
pub proof fn law_each_symbol_is_found_once(
    before: SymbolSearch,
    info: SymbolInfo,
    after: SymbolSearch,
)
    requires
        symbol_taken(before, info, after),
    ensures
        after.filter@ == before.filter@,
        after.max_results == before.max_results,
        (info.symbol_type == SymbolType::Code || info.symbol_type == SymbolType::Data)
            && occurs_in_order(info.name@, before.filter@) ==> after.symbols@.len()
            == before.symbols@.len() + 1 && after.symbols.deep_view().last() == symbol_view(info)
            && after.symbols.deep_view().drop_last() == before.symbols.deep_view(),
        info.symbol_type == SymbolType::Other || !occurs_in_order(info.name@, before.filter@)
            ==> after.symbols.deep_view() == before.symbols.deep_view(),
        after.done <==> after.symbols@.len() >= after.max_results,
{
    assert(before.symbols.deep_view().len() == before.symbols@.len());
    assert(after.symbols.deep_view().len() == after.symbols@.len());
    if is_wanted(before.filter@, info.symbol_type, info.name@) {
        assert(after.symbols.deep_view().drop_last() =~= before.symbols.deep_view());
    }
}

/// The view of a symbol has each of its parts, written as it is.
pub proof fn law_symbols_are_seen_as_they_are(symbol: Symbol)
    ensures
        symbol.deep_view().name == symbol.name@,
        symbol.deep_view().type_ == symbol.type_@,
        symbol.deep_view().address == symbol.address@,
        symbol.deep_view().location is Some == symbol.location is Some,
        symbol.location matches Some((source, line)) ==> symbol.deep_view().location == Some(
            (source.deep_view(), line),
        ),
{
}

}
