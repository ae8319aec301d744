use debug_session::error::Blame;
use debug_session::memory::{
    bytes_to_read, handle_read_memory, handle_write_memory, may_write, memory_read,
    memory_written, resolve_memory_reference, MemoryRegion, ReadMemoryArguments, WritePlan,
    WriteMemoryArguments,
};
use debug_session::text::address_string;

fn region(readable: bool, writable: bool, end: u64) -> Option<MemoryRegion> {
    Some(MemoryRegion { readable, writable, end })
}

fn read_args(memory_reference: &str, offset: Option<i64>) -> ReadMemoryArguments {
    ReadMemoryArguments { memory_reference: memory_reference.to_string(), offset, count: 16 }
}

fn write_args(data: &str, allow_partial: Option<bool>) -> WriteMemoryArguments {
    WriteMemoryArguments {
        memory_reference: "0x1000".to_string(),
        offset: Some(8),
        data: data.to_string(),
        allow_partial,
    }
}

#[test]
fn references_are_numbers() {
    assert_eq!(handle_read_memory(&read_args("0x1000", None)).unwrap(), Some(0x1000));
    assert_eq!(handle_read_memory(&read_args("0x1000", Some(-16))).unwrap(), Some(0xff0));
    assert_eq!(handle_read_memory(&read_args("4096", Some(1))).unwrap(), Some(4097));
    assert_eq!(handle_read_memory(&read_args("-1", None)).unwrap(), Some(u64::MAX));
}

#[test]
fn bad_references_are_errors() {
    let e = handle_read_memory(&read_args("main", None)).unwrap_err();
    assert_eq!(e.blame, Blame::Internal);
    assert_eq!(e.message, "invalid digit found in string");
}

#[test]
fn sums_have_to_fit() {
    assert_eq!(resolve_memory_reference("9223372036854775807", Some(1)).unwrap(), None);
    assert_eq!(
        resolve_memory_reference("9223372036854775807", Some(0)).unwrap(),
        Some(i64::MAX as u64)
    );
}

#[test]
fn written_addresses_are_read_back() {
    for address in [0u64, 0xabc, 0x7fff_ffff_ffff_ffff] {
        let text = address_string(address);
        assert_eq!(resolve_memory_reference(&text, None).unwrap(), Some(address));
    }
    let text = address_string(0x8000_0000_0000_0000);
    assert!(resolve_memory_reference(&text, None).is_err());
}

#[test]
fn reads_end_with_their_region() {
    assert_eq!(bytes_to_read(16, 0x1000, region(true, false, 0x2000)), Some(16));
    assert_eq!(bytes_to_read(16, 0x1ff8, region(true, false, 0x2000)), Some(8));
    assert_eq!(bytes_to_read(16, 0x1ff8, region(false, true, 0)), None);
    assert_eq!(bytes_to_read(16, 0x1ff8, None), None);
}

#[test]
fn reads_are_answered_in_base64() {
    let r = memory_read(0xabc, 6, &Some(vec![0xff, 0, 1, 2]));
    assert_eq!(r.address, "0xABC");
    assert_eq!(r.unreadable_bytes, Some(2));
    assert_eq!(r.data.as_deref(), Some("/wABAg=="));
    let r = memory_read(0xabc, 6, &None);
    assert_eq!(r.address, "0xABC");
    assert_eq!(r.unreadable_bytes, Some(6));
    assert_eq!(r.data, None);
}

#[test]
fn writes_are_planned() {
    let plan = handle_write_memory(&write_args("/wABAg==", Some(true))).unwrap().unwrap();
    assert_eq!(plan.address, 0x1008);
    assert_eq!(plan.data, vec![0xff, 0, 1, 2]);
    assert!(plan.allow_partial);
    let plan = handle_write_memory(&write_args("", None)).unwrap().unwrap();
    assert!(plan.data.is_empty() && !plan.allow_partial);
}

#[test]
fn bad_writes_are_errors() {
    let mut args = write_args("A*==", None);
    let e = handle_write_memory(&args).unwrap_err();
    assert_eq!(e.blame, Blame::Internal);
    assert_eq!(e.message, "Invalid byte 42, offset 1.");
    args.memory_reference = "zzz".to_string();
    let e = handle_write_memory(&args).unwrap_err();
    assert_eq!(e.message, "invalid digit found in string");
    args.memory_reference = "9223372036854775807".to_string();
    assert!(handle_write_memory(&args).unwrap().is_none());
}

#[test]
fn data_that_was_read_can_be_written() {
    let bytes: Vec<u8> = (0..=255).collect();
    let r = memory_read(0x1000, 256, &Some(bytes.clone()));
    let plan = handle_write_memory(&write_args(&r.data.unwrap(), None)).unwrap().unwrap();
    assert_eq!(plan.data, bytes);
}

#[test]
fn writes_need_room() {
    let mut plan = WritePlan { address: 0x1ff8, data: vec![0; 9], allow_partial: false };
    assert!(may_write(&plan, region(false, true, 0x2001)));
    assert!(!may_write(&plan, region(false, true, 0x2000)));
    assert!(!may_write(&plan, region(true, false, 0)));
    assert!(!may_write(&plan, None));
    plan.allow_partial = true;
    assert!(may_write(&plan, region(false, true, 0x2000)));
}

#[test]
fn writes_are_answered() {
    let mut plan = WritePlan { address: 0x1ff8, data: vec![0; 9], allow_partial: false };
    assert_eq!(memory_written(&plan, Some(9)).unwrap(), 9);
    let e = memory_written(&plan, None).unwrap_err();
    assert_eq!(e.blame, Blame::User);
    assert_eq!(e.message, "Cannot write 9 bytes at 00001FF8");
    plan.allow_partial = true;
    assert_eq!(memory_written(&plan, None).unwrap(), 0);
}

#[test]
fn memory_is_written_back_where_it_was_read() {
    let r = memory_read(0xabc, 4, &Some(vec![1, 2, 3, 4]));
    let mut args = write_args(&r.data.unwrap(), None);
    args.memory_reference = r.address;
    args.offset = None;
    let plan = handle_write_memory(&args).unwrap().unwrap();
    assert_eq!((plan.address, plan.data), (0xabc, vec![1, 2, 3, 4]));
}
