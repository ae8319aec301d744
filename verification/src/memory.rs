//! Reading and writing the memory of the debuggee.
use vstd::prelude::*;

use crate::error::{says, Blame, Error};
use crate::outside::{
    base64_decode, base64_decoded, base64_encode, base64_encoded, base64_len, parse_prefixed_i64,
    prefixed_i64,
};
use crate::text::{
    address_string, address_text, decimal, hex_upper, push_decimal, push_hex_padded, zero_padded,
};

verus! {

/// A request to read `count` bytes.
#[derive(Debug)]
pub struct ReadMemoryArguments {
    pub memory_reference: String,
    pub offset: Option<i64>,
    pub count: i64,
}

/// The bytes that were read, in base64, and how many could not be read.
#[derive(Debug)]
pub struct ReadMemoryResponse {
    pub address: String,
    pub unreadable_bytes: Option<i64>,
    pub data: Option<String>,
}

/// A request to write bytes, given in base64.
#[derive(Debug)]
pub struct WriteMemoryArguments {
    pub memory_reference: String,
    pub offset: Option<i64>,
    pub data: String,
    pub allow_partial: Option<bool>,
}

/// Bytes to write.
#[derive(Debug)]
pub struct WritePlan {
    pub address: u64,
    pub data: Vec<u8>,
    pub allow_partial: bool,
}

/// The region of memory around an address. `end` is the first address behind it.
#[derive(Clone, Copy, Debug, PartialEq, Eq, Structural)]
pub struct MemoryRegion {
    pub readable: bool,
    pub writable: bool,
    pub end: u64,
}

/// The offset of a request: none is zero.
pub open spec fn offset_of(offset: Option<i64>) -> int {
    match offset {
        Some(n) => n as int,
        None => 0,
    }
}

/// The address `offset` bytes behind the one that a reference stands for. Addresses in the upper
/// half are negative numbers. There is none where the sum does not fit.
pub open spec fn offset_address(reference: i64, offset: Option<i64>) -> Option<u64> {
    let sum = reference + offset_of(offset);
    if i64::MIN <= sum <= i64::MAX {
        Some((sum as i64) as u64)
    } else {
        None
    }
}

/// Whether `r` is the address of a memory reference: an error where the reference is not a
/// number, and none where the sum with the offset does not fit.
pub open spec fn addresses(reference: Seq<char>, offset: Option<i64>, r: Result<Option<u64>, Error>)
    -> bool {
    match prefixed_i64(reference) {
        Ok(n) => r matches Ok(address) && address == offset_address(n, offset),
        Err(message) => r matches Err(e) && says(e, Blame::Internal, message),
    }
}

/// Whether an address that is written as the session writes addresses is found again, as long as
/// it is not in the upper half.
pub open spec fn finds_again(
    reference: Seq<char>,
    offset: Option<i64>,
    r: Result<Option<u64>, Error>,
) -> bool {
    forall|n: u64|
        reference == #[trigger] address_text(n as nat) ==> if n <= i64::MAX {
            r matches Ok(address) && address == offset_address(n as i64, offset)
        } else {
            r is Err
        }
}

/// The address of a memory reference.
pub fn resolve_memory_reference(reference: &str, offset: Option<i64>) -> (r: Result<
    Option<u64>,
    Error,
>)
    ensures
        addresses(reference@, offset, r),
        finds_again(reference@, offset, r),
{
    match parse_prefixed_i64(reference) {
        Err(message) => Err(Error { blame: Blame::Internal, message }),
        Ok(n) => {
            let address: Option<u64> = match n.checked_add(offset.unwrap_or(0)) {
                Some(sum) => Some(#[verifier::truncate] (sum as u64)),
                None => None,
            };
            Ok(address)
        },
    }
}

/// Where to read.
pub fn handle_read_memory(args: &ReadMemoryArguments) -> (r: Result<Option<u64>, Error>)
    ensures
        addresses(args.memory_reference@, args.offset, r),
        finds_again(args.memory_reference@, args.offset, r),
{
    resolve_memory_reference(args.memory_reference.as_str(), args.offset)
}

/// The number of bytes of the region from `address` on.
pub open spec fn room(region: MemoryRegion, address: u64) -> usize {
    ((region.end - address) as u64) as usize
}

/// How much to read: what was asked for, as far as the region goes. Nothing is read where there is
/// no region or where it cannot be read.
pub open spec fn readable_len(count: i64, address: u64, region: Option<MemoryRegion>) -> Option<
    usize,
> {
    match region {
        Some(region) => if region.readable {
            Some(
                if (count as usize) < room(region, address) {
                    count as usize
                } else {
                    room(region, address)
                },
            )
        } else {
            None
        },
        None => None,
    }
}

/// How much to read.
pub fn bytes_to_read(count: i64, address: u64, region: Option<MemoryRegion>) -> (r: Option<usize>)
    requires
        region matches Some(m) ==> (m.readable ==> address <= m.end),
    ensures
        r == readable_len(count, address, region),
{
    match region {
        Some(region) => {
            if region.readable {
                let wanted: usize = #[verifier::truncate] (count as usize);
                let room: usize = #[verifier::truncate] ((region.end - address) as usize);
                if wanted < room {
                    Some(wanted)
                } else {
                    Some(room)
                }
            } else {
                None
            }
        },
        None => None,
    }
}

/// Whether `reply` is the answer to a request for `count` bytes at `address` of which `read` came
/// back.
pub open spec fn read_answered(
    address: u64,
    count: i64,
    read: Option<Seq<u8>>,
    reply: ReadMemoryResponse,
) -> bool {
    &&& reply.address@ == address_text(address as nat)
    &&& match read {
        Some(bytes) => {
            &&& reply.unreadable_bytes == Some(((count as usize) - bytes.len()) as usize as i64)
            &&& reply.data matches Some(data) && {
                &&& data@ == base64_encoded(bytes)
                &&& base64_decoded(data@) is Ok
                &&& base64_decoded(data@)->Ok_0 == bytes
            }
        },
        None => reply.unreadable_bytes == Some(count) && reply.data is None,
    }
}

/// The answer to a request to read memory, given the bytes that were read, if any.
pub fn memory_read(address: u64, count: i64, read: &Option<Vec<u8>>) -> (reply: ReadMemoryResponse)
    requires
        read matches Some(bytes) ==> {
            &&& bytes@.len() <= count as usize
            &&& base64_len(bytes@.len()) <= isize::MAX
        },
    ensures
        read_answered(
            address,
            count,
            match read {
                Some(bytes) => Some(bytes@),
                None => None,
            },
            reply,
        ),
{
    match read {
        Some(bytes) => {
            let wanted: usize = #[verifier::truncate] (count as usize);
            let unreadable: usize = wanted - bytes.len();
            ReadMemoryResponse {
                address: address_string(address),
                unreadable_bytes: Some(#[verifier::truncate] (unreadable as i64)),
                data: Some(base64_encode(bytes)),
            }
        },
        None => ReadMemoryResponse {
            address: address_string(address),
            unreadable_bytes: Some(count),
            data: None,
        },
    }
}

/// Whether `r` is the plan of a request to write memory. A reference that is not a number, and
/// data that is not base64, are errors, in this order. There is no plan where the address does
/// not fit.
pub open spec fn write_planned(args: WriteMemoryArguments, r: Result<Option<WritePlan>, Error>)
    -> bool {
    match prefixed_i64(args.memory_reference@) {
        Err(message) => r matches Err(e) && says(e, Blame::Internal, message),
        Ok(n) => match offset_address(n, args.offset) {
            None => r matches Ok(plan) && plan is None,
            Some(address) => match base64_decoded(args.data@) {
                Err(message) => r matches Err(e) && says(e, Blame::Internal, message),
                Ok(bytes) => r matches Ok(plan) && plan matches Some(plan) && {
                    &&& plan.address == address
                    &&& plan.data@ == bytes
                    &&& plan.allow_partial == (args.allow_partial == Some(true))
                },
            },
        },
    }
}

/// Whether a write goes to an address that is written as the session writes addresses, as long as
/// it is not in the upper half and the data can be read.
pub open spec fn write_finds_again(
    args: WriteMemoryArguments,
    r: Result<Option<WritePlan>, Error>,
) -> bool {
    forall|n: u64|
        args.memory_reference@ == #[trigger] address_text(n as nat) ==> if n <= i64::MAX {
            match offset_address(n as i64, args.offset) {
                None => r matches Ok(plan) && plan is None,
                Some(address) => if base64_decoded(args.data@) is Ok {
                    r matches Ok(plan) && plan matches Some(plan) && plan.address == address
                } else {
                    r is Err
                },
            }
        } else {
            r is Err
        }
}

/// What to write, and where.
pub fn handle_write_memory(args: &WriteMemoryArguments) -> (r: Result<Option<WritePlan>, Error>)
    ensures
        write_planned(*args, r),
        write_finds_again(*args, r),
{
    match resolve_memory_reference(args.memory_reference.as_str(), args.offset) {
        Err(e) => Err(e),
        Ok(None) => Ok(None),
        Ok(Some(address)) => match base64_decode(args.data.as_str()) {
            Err(message) => Err(Error { blame: Blame::Internal, message }),
            Ok(data) => Ok(
                Some(
                    WritePlan { address, data, allow_partial: args.allow_partial.unwrap_or(false) },
                ),
            ),
        },
    }
}

/// Whether a plan may be carried out: the region has to be writable, and to hold all the bytes
/// unless a part will do.
pub open spec fn write_allowed(plan: WritePlan, region: Option<MemoryRegion>) -> bool {
    region matches Some(region) && region.writable && (plan.allow_partial || plan.data@.len()
        <= room(region, plan.address))
}

/// Whether a plan may be carried out.
pub fn may_write(plan: &WritePlan, region: Option<MemoryRegion>) -> (r: bool)
    requires
        region matches Some(m) ==> (m.writable ==> plan.address <= m.end),
    ensures
        r == write_allowed(*plan, region),
{
    match region {
        Some(region) => {
            if region.writable {
                let room: usize = #[verifier::truncate] ((region.end - plan.address) as usize);
                plan.allow_partial || plan.data.len() <= room
            } else {
                false
            }
        },
        None => false,
    }
}

/// The message that `len` bytes at `address` were not written.
pub open spec fn not_written_text(len: nat, address: u64) -> Seq<char> {
    "Cannot write "@ + decimal(len) + " bytes at "@ + zero_padded(hex_upper(address as nat), 8)
}

/// Whether `r` is the answer to a request to write memory, where `written` bytes were written, if the
/// write was tried and did not fail.
pub open spec fn write_answered(
    plan: WritePlan,
    written: Option<usize>,
    r: Result<i64, Error>,
) -> bool {
    match written {
        Some(n) => r matches Ok(m) && m == n as i64,
        None => if plan.allow_partial {
            r matches Ok(m) && m == 0
        } else {
            r matches Err(e) && says(
                e,
                Blame::User,
                not_written_text(plan.data@.len(), plan.address),
            )
        },
    }
}

/// The answer to a request to write memory: the number of bytes written, where the write was
/// tried and did not fail. Nothing written is an error, unless a part would have done.
pub fn memory_written(plan: &WritePlan, written: Option<usize>) -> (r: Result<i64, Error>)
    ensures
        write_answered(*plan, written, r),
{
    match written {
        Some(n) => Ok(#[verifier::truncate] (n as i64)),
        None => {
            if plan.allow_partial {
                Ok(0)
            } else {
                let mut message: String = "Cannot write ".to_owned();
                push_decimal(&mut message, plan.data.len() as u64);
                message.append(" bytes at ");
                push_hex_padded(&mut message, plan.address, 8);
                Err(Error { blame: Blame::User, message })
            }
        },
    }
}

/// Data that a read gave back is written as the bytes that were read.
pub proof fn law_read_data_is_written_back(
    address: u64,
    count: i64,
    bytes: Seq<u8>,
    reply: ReadMemoryResponse,
    args: WriteMemoryArguments,
    r: Result<Option<WritePlan>, Error>,
)
    requires
        read_answered(address, count, Some(bytes), reply),
        args.data@ == reply.data->0@,
        write_planned(args, r),
        prefixed_i64(args.memory_reference@) is Ok,
        offset_address(prefixed_i64(args.memory_reference@)->Ok_0, args.offset) is Some,
    ensures
        r is Ok,
        r->Ok_0 is Some,
        r->Ok_0->0.data@ == bytes,
{
}

/// What a read gave back is written where it was read: the address and the data of the answer plan
/// a write of the same bytes at the same address, as long as that is not in the upper half.
pub proof fn law_memory_is_written_back_where_it_was_read(
    address: u64,
    count: i64,
    bytes: Seq<u8>,
    reply: ReadMemoryResponse,
    args: WriteMemoryArguments,
    r: Result<Option<WritePlan>, Error>,
)
    requires
        read_answered(address, count, Some(bytes), reply),
        address <= i64::MAX,
        args.memory_reference@ == reply.address@,
        args.data@ == reply.data->0@,
        offset_of(args.offset) == 0,
        write_planned(args, r),
        write_finds_again(args, r),
    ensures
        r is Ok,
        r->Ok_0 is Some,
        r->Ok_0->0.address == address,
        r->Ok_0->0.data@ == bytes,
{
    assert(args.memory_reference@ == address_text(address as nat));
}

/// Memory is read wherever it is readable, whether or not it is also writable: as many bytes as were
/// asked for, or as there are up to the end of the region, if these are fewer. Nothing is read just
/// where there is no region or it is not readable.
pub proof fn law_readable_memory_is_read(count: i64, address: u64, region: Option<MemoryRegion>)
    requires
        region matches Some(m) ==> address <= m.end,
    ensures
        readable_len(count, address, region) is Some <==> region is Some && region->0.readable,
        region matches Some(m) ==> (m.readable && 0 <= count <= usize::MAX && m.end - address
            <= usize::MAX ==> {
            let n = readable_len(count, address, region)->0;
            &&& n <= count
            &&& n <= m.end - address
            &&& n == count || n == m.end - address
        }),
        region matches Some(m) ==> readable_len(
            count,
            address,
            Some(MemoryRegion { writable: !m.writable, ..m }),
        ) == readable_len(count, address, region),
{
}

/// Memory is written wherever it is writable, whether or not it is also readable, and the bytes fit
/// into the region or a part will do.
pub proof fn law_writable_memory_is_written(plan: WritePlan, region: Option<MemoryRegion>)
    requires
        region matches Some(m) ==> plan.address <= m.end && m.end - plan.address <= usize::MAX,
    ensures
        write_allowed(plan, region) ==> region is Some && region->0.writable,
        region matches Some(m) ==> (m.writable && plan.allow_partial ==> write_allowed(
            plan,
            region,
        )),
        region matches Some(m) ==> (m.writable && !plan.allow_partial ==> (write_allowed(
            plan,
            region,
        ) <==> plan.address + plan.data@.len() <= m.end)),
        region matches Some(m) ==> write_allowed(
            plan,
            Some(MemoryRegion { readable: !m.readable, ..m }),
        ) == write_allowed(plan, region),
{
}

/// The offset of a request is added to the address that its reference stands for. The upper half of
/// the addresses is reached by negative numbers, counted down from the end of the memory.
pub proof fn law_offsets_are_added(reference: i64, offset: Option<i64>)
    ensures
        ({
            let sum = reference + match offset {
                Some(n) => n as int,
                None => 0,
            };
            let address = offset_address(reference, offset);
            &&& address is Some <==> i64::MIN <= sum <= i64::MAX
            &&& address is Some && sum >= 0 ==> address->0 == sum
            &&& address is Some && sum < 0 ==> address->0 == sum + 0x1_0000_0000_0000_0000
        }),
{
    let sum = reference + offset_of(offset);
    if i64::MIN <= sum < 0 {
        let x = sum as i64;
        assert(x < 0 ==> (x as u64) == x + 0x1_0000_0000_0000_0000) by (bit_vector);
    }
}

/// A reference that is a number leads to an address, and one that is none to an internal error with
/// the reason.
pub proof fn law_references_have_to_be_numbers(
    reference: Seq<char>,
    offset: Option<i64>,
    r: Result<Option<u64>, Error>,
)
    requires
        addresses(reference, offset, r),
    ensures
        r is Ok <==> prefixed_i64(reference) is Ok,
        r matches Ok(address) ==> address == offset_address(prefixed_i64(reference)->Ok_0, offset),
        r matches Err(e) ==> e.blame == Blame::Internal && e.message@ == prefixed_i64(
            reference,
        )->Err_0,
{
}

/// The answer to a read names the address that was read. What was read comes in base64, with the
/// number of bytes that are missing from what was asked for. Where nothing was read all are missing.
pub proof fn law_reads_tell_what_is_missing(
    address: u64,
    count: i64,
    read: Option<Seq<u8>>,
    reply: ReadMemoryResponse,
)
    requires
        read_answered(address, count, read, reply),
        read matches Some(bytes) ==> bytes.len() <= count <= usize::MAX,
    ensures
        reply.address@ == address_text(address as nat),
        reply.data is Some <==> read is Some,
        read matches Some(bytes) ==> reply.data->0@ == base64_encoded(bytes)
            && reply.unreadable_bytes is Some && reply.unreadable_bytes->0 + bytes.len() == count,
        read is None ==> reply.unreadable_bytes == Some(count),
{
}

/// A write is refused for a reference that is no number and for data that is no base64, and else goes
/// to its address with all its bytes. A part will do just where the client said so.
pub proof fn law_writes_are_planned_as_asked(
    args: WriteMemoryArguments,
    r: Result<Option<WritePlan>, Error>,
)
    requires
        write_planned(args, r),
    ensures
        prefixed_i64(args.memory_reference@) matches Err(message) ==> r is Err && r->Err_0.blame
            == Blame::Internal && r->Err_0.message@ == message,
        prefixed_i64(args.memory_reference@) matches Ok(n) ==> {
            let address = offset_address(n, args.offset);
            &&& address is None ==> r is Ok && r->Ok_0 is None
            &&& address is Some && base64_decoded(args.data@) is Err ==> r is Err && r->Err_0.blame
                == Blame::Internal && r->Err_0.message@ == base64_decoded(args.data@)->Err_0
            &&& address is Some && base64_decoded(args.data@) is Ok ==> {
                &&& r is Ok
                &&& r->Ok_0 is Some
                &&& r->Ok_0->0.address == address->0
                &&& r->Ok_0->0.data@ == base64_decoded(args.data@)->Ok_0
                &&& r->Ok_0->0.allow_partial <==> args.allow_partial == Some(true)
            }
        },
{
}

/// A write tells how many bytes were written. One that could not be made is an error of the user,
/// which names the bytes and the address in at least eight digits, unless a part would have done.
pub proof fn law_writes_tell_what_was_written(
    plan: WritePlan,
    written: Option<usize>,
    r: Result<i64, Error>,
)
    requires
        write_answered(plan, written, r),
    ensures
        r is Err <==> written is None && !plan.allow_partial,
        written matches Some(n) ==> (n <= i64::MAX ==> r is Ok && r->Ok_0 == n),
        written is None && plan.allow_partial ==> r is Ok && r->Ok_0 == 0,
        r matches Err(e) ==> {
            &&& e.blame == Blame::User
            &&& e.message@ == "Cannot write "@ + decimal(plan.data@.len()) + " bytes at "@
                + zero_padded(hex_upper(plan.address as nat), 8)
        },
{
}

}
