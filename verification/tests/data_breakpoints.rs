use debug_session::data_breakpoints::{
    child_lookup, data_breakpoint_info, data_breakpoints_set, handle_data_breakpoint_info,
    handle_set_data_breakpoints, wpid_to_bpid, ChildLookup, DataBreakpoint,
    DataBreakpointAccessType, DataBreakpointInfo, DataBreakpointInfoArguments, FoundValue,
    InfoAnswer, InfoQuery, WatchOutcome, INVALID_ADDRESS,
};
use debug_session::error::Blame;
use debug_session::session::{Action, Container};

fn question(name: &str) -> DataBreakpointInfoArguments {
    DataBreakpointInfoArguments {
        variables_reference: None,
        frame_id: Some(5),
        name: name.to_string(),
        bytes: None,
        as_address: None,
    }
}

fn info_of(args: &DataBreakpointInfoArguments, answer: &InfoAnswer) -> DataBreakpointInfo {
    let query = match answer {
        InfoAnswer::Child(_) => InfoQuery::Child { variables_reference: 1 },
        InfoAnswer::Address { .. } => {
            let args = DataBreakpointInfoArguments { as_address: Some(true), ..question(&args.name) };
            handle_data_breakpoint_info(&args)
        }
        InfoAnswer::Expression(_) => InfoQuery::Expression { frame_id: None },
    };
    data_breakpoint_info(args, query, answer)
}

fn value(load_address: u64, byte_size: u64, name: Option<&str>) -> FoundValue {
    FoundValue { load_address, byte_size, name: name.map(|n| n.to_string()) }
}

fn deletes(actions: &Vec<Action>) -> bool {
    actions.len() == 1 && matches!(actions[0], Action::DeleteAllWatchpoints)
}

fn bp(data_id: &str, access_type: Option<DataBreakpointAccessType>) -> DataBreakpoint {
    DataBreakpoint { data_id: data_id.to_string(), access_type }
}

#[test]
fn questions_are_told_apart() {
    let mut args = question("x");
    assert_eq!(handle_data_breakpoint_info(&args), InfoQuery::Expression { frame_id: Some(5) });
    args.as_address = Some(false);
    assert_eq!(handle_data_breakpoint_info(&args), InfoQuery::Expression { frame_id: Some(5) });
    args.variables_reference = Some(9);
    args.as_address = Some(true);
    assert_eq!(
        handle_data_breakpoint_info(&args),
        InfoQuery::Child { variables_reference: 9 }
    );
}

#[test]
fn addresses_are_read_in_any_base() {
    for (text, address) in [
        ("0x1F", 0x1f),
        ("31", 31),
        ("0b11", 3),
        ("0xFFFFFFFFFFFFFFFE", u64::MAX - 1),
        ("rubbish", INVALID_ADDRESS),
        ("", INVALID_ADDRESS),
    ] {
        let mut args = question(text);
        args.as_address = Some(true);
        assert_eq!(
            handle_data_breakpoint_info(&args),
            InfoQuery::Address { frame_id: Some(5), address }
        );
    }
}

#[test]
fn children_are_looked_up_by_container() {
    assert_eq!(child_lookup(Container::Value), ChildLookup::MemberWithName);
    assert_eq!(child_lookup(Container::Locals), ChildLookup::Variable);
    assert_eq!(child_lookup(Container::Globals), ChildLookup::GlobalValue);
    assert_eq!(child_lookup(Container::Statics), ChildLookup::StaticValue);
    assert_eq!(child_lookup(Container::Registers), ChildLookup::Nothing);
    assert_eq!(child_lookup(Container::StackFrame), ChildLookup::Nothing);
}

#[test]
fn children_with_an_address_can_be_watched() {
    let args = question("x");
    let r = info_of(&args, &InfoAnswer::Child(Some(value(0x1000, 4, Some("x")))));
    assert_eq!(r.data_id.as_deref(), Some("4096/4"));
    assert_eq!(r.description, "4 bytes at 1000 (x)");
    assert_eq!(
        r.access_types,
        Some(vec![
            DataBreakpointAccessType::Read,
            DataBreakpointAccessType::Write,
            DataBreakpointAccessType::ReadWrite,
        ])
    );
    let r = info_of(&args, &InfoAnswer::Child(Some(value(0x1000, 4, None))));
    assert_eq!(r.description, "4 bytes at 1000 ()");
}

#[test]
fn what_has_no_address_cannot_be_watched() {
    let args = question("x");
    let r = info_of(&args, &InfoAnswer::Child(None));
    assert_eq!((r.data_id, r.description.as_str()), (None, "Variable not found."));
    let r = info_of(&args, &InfoAnswer::Child(Some(value(INVALID_ADDRESS, 4, None))));
    assert_eq!(r.data_id, None);
    assert_eq!(r.description, "This variable doesn't have an address.");
    let r = info_of(&args, &InfoAnswer::Expression(value(INVALID_ADDRESS, 4, None)));
    assert_eq!(r.access_types, None);
    assert_eq!(r.description, "This value doesn't have an address.");
}

#[test]
fn expressions_are_named_after_themselves() {
    let mut args = question("a+b");
    args.bytes = Some(2);
    let r = info_of(&args, &InfoAnswer::Expression(value(0xabc, 8, None)));
    assert_eq!(r.data_id.as_deref(), Some("2748/2"));
    assert_eq!(r.description, "2 bytes at ABC (a+b)");
    let r = info_of(&args, &InfoAnswer::Expression(value(0xabc, 8, Some("$0"))));
    assert_eq!(r.description, "2 bytes at ABC ($0)");
}

#[test]
fn addresses_have_to_resolve() {
    let answer = |resolves| InfoAnswer::Address { resolves, address_byte_size: 8 };
    let r = info_of(&question("0x10"), &answer(true));
    assert_eq!(r.data_id.as_deref(), Some("16/8"));
    assert_eq!(r.description, "8 bytes at 10");
    let r = info_of(&question("0x10"), &answer(false));
    assert_eq!((r.data_id, r.description.as_str()), (None, "Invalid address 16"));
    let r = info_of(&question("nowhere"), &answer(true));
    assert_eq!(r.description, "Invalid address 18446744073709551615");
}

#[test]
fn identifiers_are_read_back() {
    let args = question("x");
    let info = info_of(&args, &InfoAnswer::Child(Some(value(u64::MAX - 1, 16, None))));
    let (actions, plan) = handle_set_data_breakpoints(&vec![bp(&info.data_id.unwrap(), None)]);
    assert!(deletes(&actions));
    assert!(plan.failure.is_none());
    assert_eq!((plan.watches[0].address, plan.watches[0].size), (u64::MAX - 1, 16));
    assert_eq!((plan.watches[0].read, plan.watches[0].write), (false, true));
}

#[test]
fn watches_are_reported() {
    let (actions, plan) = handle_set_data_breakpoints(&vec![
        bp("4096/4", Some(DataBreakpointAccessType::Read)),
        bp("+8/1/rest", Some(DataBreakpointAccessType::ReadWrite)),
        bp("1/2", Some(DataBreakpointAccessType::Write)),
    ]);
    assert!(deletes(&actions));
    assert!(plan.failure.is_none());
    assert_eq!((plan.watches[1].address, plan.watches[1].size), (8, 1));
    assert_eq!((plan.watches[1].read, plan.watches[1].write), (true, true));
    let bps = data_breakpoints_set(
        plan,
        &vec![
            WatchOutcome::Watching(1),
            WatchOutcome::Watching(2),
            WatchOutcome::Refused("no hardware".to_string()),
        ],
    )
    .unwrap();
    assert_eq!((bps[0].id, bps[0].verified), (Some(1_000_001), true));
    assert_eq!(bps[0].message.as_deref(), Some("Break on read"));
    assert_eq!(bps[1].id, Some(1_000_002));
    assert_eq!(bps[1].message.as_deref(), Some("Break on read and write"));
    assert_eq!((bps[2].id, bps[2].verified), (None, false));
    assert_eq!(bps[2].message.as_deref(), Some("no hardware"));
}

#[test]
fn writing_is_watched_by_default() {
    let (actions, plan) = handle_set_data_breakpoints(&vec![bp("1/2", None)]);
    assert!(deletes(&actions));
    let bps = data_breakpoints_set(plan, &vec![WatchOutcome::Watching(0)]).unwrap();
    assert_eq!(bps[0].message.as_deref(), Some("Break on write"));
}

#[test]
fn bad_identifiers_end_the_plan() {
    for (id, message) in [
        ("x/4", "invalid digit found in string"),
        ("/4", "cannot parse integer from empty string"),
        ("18446744073709551616/4", "number too large to fit in target type"),
        ("16", ""),
        ("16/-1", "invalid digit found in string"),
        ("16/", "cannot parse integer from empty string"),
    ] {
        let (actions, plan) = handle_set_data_breakpoints(&vec![bp("1/1", None), bp(id, None), bp("2/2", None)]);
        assert!(deletes(&actions));
        assert_eq!(plan.watches.len(), 1);
        let e = data_breakpoints_set(plan, &vec![WatchOutcome::Watching(3)]).unwrap_err();
        assert_eq!(e.message, message);
        assert_eq!(e.blame, Blame::Internal);
    }
}

#[test]
fn watchpoints_have_their_own_identifiers() {
    assert_eq!(wpid_to_bpid(0), 1_000_000);
    assert_eq!(wpid_to_bpid(u32::MAX), 1_000_000 + u32::MAX as i64);
}
