use debug_session::modules::{
    handle_target_event, make_module_detail, module_id, ModuleInfo, ModuleList, TargetEvent,
};
use debug_session::protocol::{Event, Module};

fn module(header_address: Option<u64>, symbols: Option<&str>) -> ModuleInfo {
    ModuleInfo {
        header_address,
        file_name: "libc.so".to_string(),
        path: "/lib/libc.so".to_string(),
        symbol_path: symbols.map(|s| s.to_string()),
    }
}

fn told(e: &Event) -> (&str, &Module) {
    match e {
        Event::Module { reason, module } => (reason, module),
        _ => panic!("{:?}", e),
    }
}

fn about(loaded: bool, symbols: bool, unloaded: bool) -> TargetEvent {
    TargetEvent { modules_loaded: loaded, symbols_loaded: symbols, modules_unloaded: unloaded }
}

#[test]
fn modules_are_called_by_their_header() {
    assert_eq!(module_id(&module(Some(0x7f00_abcd), None)), "7F00ABCD");
    assert_eq!(module_id(&module(None, None)), "/lib/libc.so");
}

#[test]
fn details_tell_about_symbols() {
    let m = make_module_detail(&module(Some(0xabc), Some("/lib/libc.debug")));
    assert_eq!(m.id, "ABC");
    assert_eq!(m.name, "libc.so");
    assert_eq!(m.path.as_deref(), Some("/lib/libc.so"));
    assert_eq!(m.address_range.as_deref(), Some("ABC"));
    assert_eq!(m.symbol_status.as_deref(), Some("Symbols loaded."));
    assert_eq!(m.symbol_file_path.as_deref(), Some("/lib/libc.debug"));
    let m = make_module_detail(&module(None, None));
    assert_eq!(m.address_range, None);
    assert_eq!(m.symbol_status.as_deref(), Some("Symbols not found"));
    assert_eq!(m.symbol_file_path, None);
}

#[test]
fn lists_end_with_the_modules() {
    let mut list = ModuleList::handle_modules(None, None);
    assert_eq!(list.walk.index(), Some(0));
    list.module_found(Some(&module(Some(1), None)));
    assert_eq!(list.walk.index(), Some(1));
    list.module_found(Some(&module(Some(2), None)));
    list.module_found(None);
    assert_eq!(list.walk.index(), None);
    let r = list.modules_listed(2);
    assert_eq!(r.modules.len(), 2);
    assert_eq!(r.modules[0].id, "1");
    assert_eq!(r.modules[1].id, "2");
    assert_eq!(r.total_modules, Some(2));
}

#[test]
fn lists_end_with_their_count() {
    let mut list = ModuleList::handle_modules(Some(5), Some(1));
    assert_eq!(list.walk.index(), Some(5));
    list.module_found(Some(&module(Some(1), None)));
    assert_eq!(list.walk.index(), None);
    assert_eq!(list.modules_listed(9).total_modules, Some(9));
    assert_eq!(ModuleList::handle_modules(Some(5), Some(0)).walk.index(), None);
    assert_eq!(ModuleList::handle_modules(Some(5), Some(-1)).walk.index(), None);
}

#[test]
fn loading_comes_before_changes_and_removal() {
    let modules = vec![module(Some(0xa), None), module(Some(0xb), None)];
    for (event, reason) in [
        (about(true, true, true), "new"),
        (about(false, true, true), "changed"),
        (about(false, false, true), "removed"),
    ] {
        let events = handle_target_event(event, &modules);
        assert_eq!(events.len(), 2);
        assert_eq!(told(&events[0]).0, reason);
        // The name in messages stays the same all along.
        assert_eq!(told(&events[0]).1.id, "A");
        assert_eq!(told(&events[1]).1.id, "B");
    }
    assert!(handle_target_event(about(false, false, false), &modules).is_empty());
}

#[test]
fn removed_modules_have_only_their_id() {
    let events = handle_target_event(about(false, false, true), &vec![module(Some(0xa), None)]);
    let m = told(&events[0]).1;
    assert_eq!(m.name, "");
    assert!(m.path.is_none() && m.symbol_status.is_none() && m.address_range.is_none());
}
