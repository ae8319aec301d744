//! The modules of the debuggee.
use vstd::prelude::*;

use crate::protocol::{Event, EventView, Module, ModuleView};
use crate::stack::{walk_count, walk_start, Walk};
use crate::text::{hex_upper, hex_upper_string};

verus! {

/// A module, as the debugger describes it. Not every file format has a header with an address, and
/// not every module has symbols.
#[derive(Debug)]
pub struct ModuleInfo {
    pub header_address: Option<u64>,
    pub file_name: String,
    pub path: String,
    pub symbol_path: Option<String>,
}

/// What a module is called in messages: the address of its header, or else its path.
pub open spec fn module_id_text(module: ModuleInfo) -> Seq<char> {
    match module.header_address {
        Some(address) => hex_upper(address as nat),
        None => module.path@,
    }
}

/// A module, as the client sees it.
pub open spec fn module_detail(module: ModuleInfo) -> ModuleView {
    ModuleView {
        id: module_id_text(module),
        name: module.file_name@,
        path: Some(module.path@),
        address_range: match module.header_address {
            Some(address) => Some(hex_upper(address as nat)),
            None => None,
        },
        symbol_status: Some(
            if module.symbol_path is Some {
                "Symbols loaded."@
            } else {
                "Symbols not found"@
            },
        ),
        symbol_file_path: module.symbol_path.deep_view(),
    }
}

/// A module that is gone, of which only its name in messages is left.
pub open spec fn removed_module(module: ModuleInfo) -> ModuleView {
    ModuleView {
        id: module_id_text(module),
        name: ""@,
        path: None,
        address_range: None,
        symbol_status: None,
        symbol_file_path: None,
    }
}

/// What a module is called in messages.
pub fn module_id(module: &ModuleInfo) -> (id: String)
    ensures
        id@ == module_id_text(*module),
{
    match module.header_address {
        Some(address) => hex_upper_string(address),
        None => module.path.clone(),
    }
}

/// A module, as the client sees it.
pub fn make_module_detail(module: &ModuleInfo) -> (m: Module)
    ensures
        m.deep_view() == module_detail(*module),
{
    let address_range: Option<String> = match module.header_address {
        Some(address) => Some(hex_upper_string(address)),
        None => None,
    };
    let (symbol_status, symbol_file_path) = match &module.symbol_path {
        Some(path) => ("Symbols loaded.", Some(path.clone())),
        None => ("Symbols not found", None),
    };
    Module {
        id: module_id(module),
        name: module.file_name.clone(),
        path: Some(module.path.clone()),
        address_range,
        symbol_status: Some(symbol_status.to_owned()),
        symbol_file_path,
    }
}

/// The modules that a client asked for, so far.
#[derive(Debug)]
pub struct ModuleList {
    pub walk: Walk,
    pub modules: Vec<Module>,
}

/// Whether `after` is the list `before` once the module that came next was taken in. Without a
/// module the list is complete.
pub open spec fn module_taken(before: ModuleList, module: Option<ModuleInfo>, after: ModuleList)
    -> bool {
    match module {
        Some(info) => {
            &&& after.walk == (Walk { next: (before.walk.next + 1) as i64, ..before.walk })
            &&& after.modules.deep_view() == before.modules.deep_view().push(module_detail(info))
        },
        None => {
            &&& after.walk == (Walk { end: before.walk.next, ..before.walk })
            &&& after.modules == before.modules
        },
    }
}

/// The answer to a request for modules.
#[derive(Debug)]
pub struct ModulesResponse {
    pub modules: Vec<Module>,
    pub total_modules: Option<i64>,
}

/// Whether `r` starts on the modules that were asked for.
pub open spec fn list_started(
    start_module: Option<i64>,
    module_count: Option<i64>,
    r: ModuleList,
) -> bool {
    &&& r.walk.next == walk_start(start_module)
    &&& r.walk.end == walk_start(start_module) + walk_count(module_count)
    &&& r.modules@.len() == 0
}

/// Whether `r` answers with a list, where there are `total` modules in all.
pub open spec fn list_answered(list: ModuleList, total: u32, r: ModulesResponse) -> bool {
    r.modules == list.modules && r.total_modules == Some(total as i64)
}

impl ModuleList {
    /// Starts on the modules from `start_module`, at most `module_count` of them.
    pub fn handle_modules(start_module: Option<i64>, module_count: Option<i64>) -> (r: ModuleList)
        requires
            i64::MIN <= walk_start(start_module) + walk_count(module_count) <= i64::MAX,
        ensures
            list_started(start_module, module_count, r),
    {
        ModuleList { walk: Walk::new(start_module, module_count), modules: Vec::new() }
    }

    /// Takes in the module that comes next. Without one the list is complete.
    pub fn module_found(&mut self, module: Option<&ModuleInfo>)
        requires
            old(self).walk.next < old(self).walk.end,
        ensures
            module_taken(
                *old(self),
                match module {
                    Some(info) => Some(*info),
                    None => None,
                },
                *final(self),
            ),
    {
        let ghost before = self.modules.deep_view();
        match module {
            Some(info) => {
                let m: Module = make_module_detail(info);
                let ghost v = m.deep_view();
                self.modules.push(m);
                self.walk.advance(true);
                proof {
                    assert(self.modules.deep_view() =~= before.push(v));
                }
            },
            None => {
                self.walk.advance(false);
            },
        }
    }

    /// Answers with the list. `total` is the number of all modules.
    pub fn modules_listed(self, total: u32) -> (r: ModulesResponse)
        ensures
            list_answered(self, total, r),
    {
        ModulesResponse { modules: self.modules, total_modules: Some(total as i64) }
    }
}

/// What an event of the target says about its modules.
#[derive(Clone, Copy, Debug, PartialEq, Eq, Structural)]
pub struct TargetEvent {
    pub modules_loaded: bool,
    pub symbols_loaded: bool,
    pub modules_unloaded: bool,
}

/// The event about one module. What was loaded or changed is told in full.
pub open spec fn module_event(event: TargetEvent, module: ModuleInfo) -> EventView {
    if event.modules_loaded {
        EventView::Module { reason: "new"@, module: module_detail(module) }
    } else if event.symbols_loaded {
        EventView::Module { reason: "changed"@, module: module_detail(module) }
    } else {
        EventView::Module { reason: "removed"@, module: removed_module(module) }
    }
}

/// What the client is told about the modules of an event: loading comes before changes, and changes
/// before removal.
pub open spec fn module_events(event: TargetEvent, modules: Seq<ModuleInfo>) -> Seq<EventView> {
    if event.modules_loaded || event.symbols_loaded || event.modules_unloaded {
        Seq::new(modules.len(), |i: int| module_event(event, modules[i]))
    } else {
        Seq::empty()
    }
}

/// Tells the client about modules that were loaded, got their symbols, or were unloaded.
pub fn handle_target_event(event: TargetEvent, modules: &Vec<ModuleInfo>) -> (events: Vec<Event>)
    ensures
        events.deep_view() == module_events(event, modules@),
{
    let mut events: Vec<Event> = Vec::new();
    if !(event.modules_loaded || event.symbols_loaded || event.modules_unloaded) {
        proof {
            assert(events.deep_view() =~= module_events(event, modules@));
        }
        return events;
    }
    let mut i: usize = 0;
    while i < modules.len()
        invariant
            i <= modules@.len(),
            events@.len() == i,
            forall|j: int|
                0 <= j < i ==> (#[trigger] events@[j]).deep_view() == module_event(
                    event,
                    modules@[j],
                ),
        decreases modules@.len() - i,
    {
        let module: &ModuleInfo = &modules[i];
        if event.modules_loaded {
            events.push(
                Event::Module { reason: "new".to_owned(), module: make_module_detail(module) },
            );
        } else if event.symbols_loaded {
            events.push(
                Event::Module { reason: "changed".to_owned(), module: make_module_detail(module) },
            );
        } else {
            events.push(
                Event::Module {
                    reason: "removed".to_owned(),
                    module: Module {
                        id: module_id(module),
                        name: "".to_owned(),
                        path: None,
                        address_range: None,
                        symbol_status: None,
                        symbol_file_path: None,
                    },
                },
            );
        }
        i = i + 1;
    }
    proof {
        assert(events.deep_view() =~= module_events(event, modules@));
    }
    events
}

/// A module keeps its name in messages from its loading to its removal.
pub proof fn law_module_keeps_its_id(module: ModuleInfo, loaded: TargetEvent, later: TargetEvent)
    ensures
        module_event(loaded, module)->Module_module.id == module_event(later, module)->Module_module.id,
{
}

/// A list of modules holds the modules in the order in which they were found, and never more of
/// them than were asked for.
pub proof fn law_list_holds_modules_in_order(
    start: i64,
    found: Seq<ModuleInfo>,
    more: ModuleInfo,
    before: ModuleList,
    after: ModuleList,
)
    requires
        before.walk.next == start + found.len(),
        before.modules.deep_view() == found.map_values(|m: ModuleInfo| module_detail(m)),
        before.walk.next < before.walk.end,
        module_taken(before, Some(more), after),
    ensures
        after.walk.next == start + found.push(more).len(),
        after.modules.deep_view() == found.push(more).map_values(
            |m: ModuleInfo| module_detail(m),
        ),
        after.walk.end == before.walk.end,
        after.modules@.len() <= after.walk.end - start,
{
    assert(before.modules.deep_view().len() == before.modules@.len());
    assert(after.modules.deep_view().len() == after.modules@.len());
    assert(after.modules.deep_view() =~= found.push(more).map_values(
        |m: ModuleInfo| module_detail(m),
    ));
}

/// The modules of `all` from the number `start` on, at most `count` of them, as the client sees
/// them.
pub open spec fn module_page(all: Seq<ModuleInfo>, start: int, count: int) -> Seq<ModuleView> {
    let left = all.len() - start;
    let len = if count < left {
        count
    } else {
        left
    };
    Seq::new(
        if len < 0 {
            0
        } else {
            len as nat
        },
        |k: int| module_detail(all[start + k]),
    )
}

/// Whether `states` are the states of a list that asks for one module of `all` after the other,
/// until it has as many as it is to have or there are no more.
pub open spec fn whole_list(
    all: Seq<ModuleInfo>,
    start: int,
    count: int,
    states: Seq<ModuleList>,
) -> bool {
    &&& states.len() > 0
    &&& states[0].walk.next == start
    &&& states[0].walk.end == start + count
    &&& states[0].modules@.len() == 0
    &&& forall|i: int|
        0 <= i < states.len() - 1 ==> (#[trigger] states[i]).walk.next < states[i].walk.end
            && module_taken(
            states[i],
            if (states[i].walk.next as u32) < all.len() {
                Some(all[states[i].walk.next as u32 as int])
            } else {
                None
            },
            states[i + 1],
        )
    &&& states.last().walk.next >= states.last().walk.end
}

proof fn lemma_list_so_far(
    all: Seq<ModuleInfo>,
    start: int,
    count: int,
    states: Seq<ModuleList>,
    n: int,
)
    requires
        whole_list(all, start, count, states),
        all.len() <= u32::MAX,
        0 <= start <= u32::MAX,
        count >= 0,
        0 <= n < states.len(),
    ensures
        ({
            let list = states[n];
            let taken = list.walk.next - start;
            &&& 0 <= taken <= count
            &&& taken == 0 || list.walk.next <= all.len()
            &&& list.modules.deep_view() == module_page(all, start, taken)
            &&& list.walk.end == start + count || (list.walk.end == list.walk.next
                && list.walk.next >= all.len())
        }),
    decreases n,
{
    let list = states[n];
    assert(list.modules.deep_view().len() == list.modules@.len());
    if n == 0 {
        assert(list.modules.deep_view() =~= module_page(all, start, 0));
    } else {
        lemma_list_so_far(all, start, count, states, n - 1);
        let before = states[n - 1];
        assert(before.walk.next < before.walk.end && module_taken(
            before,
            if (before.walk.next as u32) < all.len() {
                Some(all[before.walk.next as u32 as int])
            } else {
                None
            },
            states[n - 1 + 1],
        ));
        assert(list.modules.deep_view() =~= module_page(all, start, list.walk.next - start));
    }
}

/// A whole list holds the modules from its first number on: as many as it was asked for, or as
/// there are.
pub proof fn law_whole_list_is_a_page(
    all: Seq<ModuleInfo>,
    start: int,
    count: int,
    states: Seq<ModuleList>,
)
    requires
        whole_list(all, start, count, states),
        all.len() <= u32::MAX,
        0 <= start <= u32::MAX,
    ensures
        states.last().modules.deep_view() == module_page(all, start, count),
{
    let list = states.last();
    if count < 0 {
        if states.len() > 1 {
            assert(states[0].walk.next < states[0].walk.end);
        }
        assert(list.modules.deep_view() =~= module_page(all, start, count));
    } else {
        lemma_list_so_far(all, start, count, states, states.len() - 1);
        assert(module_page(all, start, list.walk.next - start) =~= module_page(all, start, count));
    }
}

/// A module is called by the address of its header where that has one, and else by its path. Its
/// header, its files and whether it has symbols are told as they are.
pub proof fn law_modules_are_told_in_full(module: ModuleInfo)
    ensures
        ({
            let told = module_detail(module);
            &&& module.header_address matches Some(address) ==> told.id == hex_upper(address as nat)
                && told.address_range == Some(hex_upper(address as nat))
            &&& module.header_address is None ==> told.id == module.path@ && told.address_range
                is None
            &&& told.name == module.file_name@
            &&& told.path == Some(module.path@)
            &&& module.symbol_path matches Some(path) ==> told.symbol_status == Some(
                "Symbols loaded."@,
            ) && told.symbol_file_path == Some(path@)
            &&& module.symbol_path is None ==> told.symbol_status == Some("Symbols not found"@)
                && told.symbol_file_path is None
        }),
{
}

/// Every module of an event is told once and in order: as new where modules were loaded, or else as
/// changed where symbols were, or else as removed, with its name in messages alone. Nothing is told
/// where the event is about none of these.
pub proof fn law_module_events_tell_what_happened(
    event: TargetEvent,
    modules: Seq<ModuleInfo>,
    i: int,
)
    requires
        0 <= i < modules.len(),
    ensures
        ({
            let told = module_events(event, modules);
            &&& event.modules_loaded || event.symbols_loaded || event.modules_unloaded
                ==> told.len() == modules.len() && told[i] is Module
            &&& !event.modules_loaded && !event.symbols_loaded && !event.modules_unloaded
                ==> told.len() == 0
            &&& event.modules_loaded ==> told[i] == (EventView::Module {
                reason: "new"@,
                module: module_detail(modules[i]),
            })
            &&& !event.modules_loaded && event.symbols_loaded ==> told[i] == (EventView::Module {
                reason: "changed"@,
                module: module_detail(modules[i]),
            })
            &&& !event.modules_loaded && !event.symbols_loaded && event.modules_unloaded ==> {
                &&& told[i]->Module_reason == "removed"@
                &&& told[i]->Module_module.id == module_detail(modules[i]).id
                &&& told[i]->Module_module.name.len() == 0
                &&& told[i]->Module_module.path is None
                &&& told[i]->Module_module.address_range is None
                &&& told[i]->Module_module.symbol_status is None
                &&& told[i]->Module_module.symbol_file_path is None
            }
        }),
{
    reveal_strlit("");
}

/// A module that is there is listed behind those before it, and one that is not ends the list as it
/// is.
pub proof fn law_lists_take_modules_as_they_come(
    before: ModuleList,
    module: Option<ModuleInfo>,
    after: ModuleList,
)
    requires
        before.walk.next < before.walk.end,
        module_taken(before, module, after),
    ensures
        module matches Some(info) ==> {
            &&& after.modules.deep_view() == before.modules.deep_view().push(module_detail(info))
            &&& after.walk.next == before.walk.next + 1
            &&& after.walk.end == before.walk.end
        },
        module is None ==> after.modules.deep_view() == before.modules.deep_view()
            && after.walk.next == after.walk.end,
{
}

/// A list starts where the client asked for, or at the first module, and goes on for as many modules
/// as the client asked for, or for all. It is answered as it is, with the number of all modules.
pub proof fn law_lists_are_made_as_asked(
    start_module: Option<i64>,
    module_count: Option<i64>,
    started: ModuleList,
    list: ModuleList,
    total: u32,
    r: ModulesResponse,
)
    requires
        list_started(start_module, module_count, started),
        list_answered(list, total, r),
    ensures
        started.modules@.len() == 0,
        start_module matches Some(n) ==> started.walk.next == n,
        start_module is None ==> started.walk.next == 0,
        module_count matches Some(n) ==> started.walk.end - started.walk.next == n,
        module_count is None ==> started.walk.end - started.walk.next == i64::MAX,
        r.modules.deep_view() == list.modules.deep_view(),
        r.total_modules is Some,
        r.total_modules->0 == total,
{
}

}
