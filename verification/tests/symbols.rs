use debug_session::stack::LocalSource;
use debug_session::symbols::{SymbolInfo, SymbolSearch, SymbolType, SymbolWalk, WalkStep};

fn symbol(symbol_type: SymbolType, name: &str, address: u64) -> SymbolInfo {
    SymbolInfo { symbol_type, name: name.to_string(), address, location: None }
}

fn search(filter: &str, max_results: u32) -> SymbolSearch {
    SymbolSearch::handle_symbols(filter.to_string(), max_results)
}

#[test]
fn filters_match_in_order_and_in_any_case() {
    let s = search("mnF", 10);
    assert!(s.wants(SymbolType::Code, "main_func"));
    assert!(s.wants(SymbolType::Data, "MiNiFy"));
    assert!(!s.wants(SymbolType::Code, "fnm"));
    assert!(!s.wants(SymbolType::Code, "mn"));
    assert!(!s.wants(SymbolType::Other, "main_func"));
    assert!(search("", 10).wants(SymbolType::Code, ""));
    assert!(!search("\u{e9}", 10).wants(SymbolType::Code, "\u{c9}"));
}

#[test]
fn wanted_symbols_are_found_in_order() {
    let mut s = search("m", 10);
    s.symbol_seen(&symbol(SymbolType::Code, "main", 0x10));
    s.symbol_seen(&symbol(SymbolType::Code, "other", 0x20));
    s.symbol_seen(&symbol(SymbolType::Data, "memory", 0xabc));
    s.symbol_seen(&symbol(SymbolType::Other, "module", 0x40));
    assert!(!s.done);
    assert_eq!(s.symbols.len(), 2);
    assert_eq!(s.symbols[0].name, "main");
    assert_eq!(s.symbols[0].type_, "Code");
    assert_eq!(s.symbols[0].address, "0x10");
    assert!(s.symbols[0].location.is_none());
    assert_eq!(s.symbols[1].name, "memory");
    assert_eq!(s.symbols[1].type_, "Data");
    assert_eq!(s.symbols[1].address, "0xABC");
}

#[test]
fn symbols_are_located() {
    let mut s = search("", 10);
    let mut info = symbol(SymbolType::Code, "main", 0x10);
    info.location =
        Some((LocalSource { name: "a.c".to_string(), path: "/w/a.c".to_string() }, 12));
    s.symbol_seen(&info);
    let (source, line) = s.symbols[0].location.as_ref().unwrap();
    assert_eq!(source.name.as_deref(), Some("a.c"));
    assert_eq!(source.path.as_deref(), Some("/w/a.c"));
    assert_eq!(source.source_reference, None);
    assert_eq!(*line, 12);
}

#[test]
fn searches_stop_at_their_limit() {
    let mut s = search("m", 2);
    s.symbol_seen(&symbol(SymbolType::Code, "m1", 1));
    assert!(!s.done);
    s.symbol_seen(&symbol(SymbolType::Code, "x", 2));
    assert!(!s.done);
    s.symbol_seen(&symbol(SymbolType::Code, "m2", 3));
    assert!(s.done);
    assert_eq!(s.symbols.len(), 2);
}

#[test]
fn searches_for_nothing_look_at_one_symbol() {
    let mut s = search("m", 0);
    assert!(!s.done);
    s.symbol_seen(&symbol(SymbolType::Code, "m1", 1));
    assert!(s.done);
    assert_eq!(s.symbols.len(), 1);
}

#[test]
fn whole_searches_give_the_first_matches() {
    let names = ["am", "b", "cm", "dm", "e", "fm"];
    for max in 1..6u32 {
        let mut s = search("m", max);
        for (i, name) in names.iter().enumerate() {
            if !s.done {
                s.symbol_seen(&symbol(SymbolType::Code, name, i as u64));
            }
        }
        let wanted = ["am", "cm", "dm", "fm"];
        let found: Vec<&str> = s.symbols.iter().map(|f| f.name.as_str()).collect();
        assert_eq!(found, wanted[..wanted.len().min(max as usize)].to_vec());
    }
}

#[test]
fn symbols_are_walked_module_by_module() {
    let counts = [0u32, 2, 0, 3, 0];
    let mut walk = SymbolWalk::new(counts.len() as u32);
    let mut asked = Vec::new();
    let mut seen = Vec::new();
    loop {
        match walk.step() {
            WalkStep::CountSymbols(module) => {
                asked.push(module);
                walk.counted(counts[module as usize]);
            }
            WalkStep::Look { module, symbol } => {
                seen.push((module, symbol));
                walk.looked();
            }
            WalkStep::End => break,
        }
    }
    assert_eq!(asked, vec![0, 1, 2, 3, 4]);
    assert_eq!(seen, vec![(1, 0), (1, 1), (3, 0), (3, 1), (3, 2)]);
    assert_eq!(SymbolWalk::new(0).step(), WalkStep::End);
}
