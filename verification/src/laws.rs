//! Laws that relate the decoders to one another and to the wire format.

use vstd::prelude::*;
use crate::bank::{
    bank_of_slice, bank_type_of_flags, banks_end, banks_from, field_at, field_width,
    header_length, padding_of, parse_bank, parse_padded_bank, BankFailure, BankSpec, BankType,
    ParsedBank, TryBankViewFromSliceError,
};
use crate::data_type::{data_type_of_code, element_stride};
use crate::event::{
    parse_event, plain_failure, EventFailure, ParsedEvent, TryEventViewFromSliceError,
};
use crate::events::{events_end, events_from, lemma_event_advances, lemma_events_end};
use crate::file::{
    detect_endianness, events_start, file_failure, initial_failure, parse_file, FileFailure,
    EOR_ID, MAGIC,
    FileSpec, FileView, ParseError, TryFileViewFromSliceError,
};
use crate::wire::{all_ascii_alphanumeric, fits, u16_at, u32_at, Endianness};

verus! {

/// The two bytes that encode `value` in the given byte order.
pub open spec fn u16_bytes(value: int, endian: Endianness) -> Seq<u8> {
    let low = (value % 256) as u8;
    let high = (value / 256 % 256) as u8;
    match endian {
        Endianness::LittleEndian => seq![low, high],
        Endianness::BigEndian => seq![high, low],
    }
}

/// The four bytes that encode `value` in the given byte order.
pub open spec fn u32_bytes(value: int, endian: Endianness) -> Seq<u8> {
    let b0 = (value % 256) as u8;
    let b1 = (value / 256 % 256) as u8;
    let b2 = (value / 65536 % 256) as u8;
    let b3 = (value / 16777216 % 256) as u8;
    match endian {
        Endianness::LittleEndian => seq![b0, b1, b2, b3],
        Endianness::BigEndian => seq![b3, b2, b1, b0],
    }
}

/// The bytes of a type or size field of the given layout.
pub open spec fn field_bytes(value: int, endian: Endianness, bank_type: BankType) -> Seq<u8> {
    match bank_type {
        BankType::B16 => u16_bytes(value, endian),
        _ => u32_bytes(value, endian),
    }
}

/// The largest number that a type or size field of the given layout holds.
pub open spec fn field_max(bank_type: BankType) -> int {
    match bank_type {
        BankType::B16 => 0xFFFF,
        _ => 0xFFFF_FFFF,
    }
}

/// The bytes that the aligned layout reserves behind the size field; the
/// other layouts have none.
pub open spec fn reserved_bytes(reserved: Seq<u8>, bank_type: BankType) -> Seq<u8> {
    match bank_type {
        BankType::B32A => reserved,
        _ => Seq::empty(),
    }
}

/// The wire encoding of a bank, without padding: name, type code, size,
/// reserved bytes where the layout has them, data.
pub open spec fn bank_bytes(
    name: Seq<u8>,
    code: int,
    data: Seq<u8>,
    reserved: Seq<u8>,
    endian: Endianness,
    bank_type: BankType,
) -> Seq<u8> {
    name + field_bytes(code, endian, bank_type) + field_bytes(
        data.len() as int,
        endian,
        bank_type,
    ) + reserved_bytes(reserved, bank_type) + data
}

/// Whether the parts are those of a bank that the format can hold.
pub open spec fn encodable_bank(
    name: Seq<u8>,
    code: int,
    data: Seq<u8>,
    reserved: Seq<u8>,
    bank_type: BankType,
) -> bool {
    &&& name.len() == 4
    &&& all_ascii_alphanumeric(name)
    &&& data_type_of_code(code) is Some
    &&& data.len() <= field_max(bank_type)
    &&& data.len() % element_stride(data_type_of_code(code)->Some_0) == 0
    &&& reserved.len() == 4
}

/// Reading an encoded 16-bit integer gives the integer back.
pub proof fn lemma_u16_round_trip(bytes: Seq<u8>, pos: int, value: int, endian: Endianness)
    requires
        0 <= value <= 0xFFFF,
        0 <= pos,
        pos + 2 <= bytes.len(),
        bytes.subrange(pos, pos + 2) == u16_bytes(value, endian),
    ensures
        u16_at(bytes, pos, endian) == value,
{
    let field = bytes.subrange(pos, pos + 2);
    assert(field[0] == bytes[pos] && field[1] == bytes[pos + 1]);
}

/// Reading an encoded 32-bit integer gives the integer back.
pub proof fn lemma_u32_round_trip(bytes: Seq<u8>, pos: int, value: int, endian: Endianness)
    requires
        0 <= value <= 0xFFFF_FFFF,
        0 <= pos,
        pos + 4 <= bytes.len(),
        bytes.subrange(pos, pos + 4) == u32_bytes(value, endian),
    ensures
        u32_at(bytes, pos, endian) == value,
{
    let field = bytes.subrange(pos, pos + 4);
    assert(field[0] == bytes[pos] && field[1] == bytes[pos + 1] && field[2] == bytes[pos + 2]
        && field[3] == bytes[pos + 3]);
}

/// Reading an encoded type or size field gives its number back.
pub proof fn lemma_field_round_trip(
    bytes: Seq<u8>,
    pos: int,
    value: int,
    endian: Endianness,
    bank_type: BankType,
)
    requires
        0 <= value <= field_max(bank_type),
        0 <= pos,
        pos + field_width(bank_type) <= bytes.len(),
        bytes.subrange(pos, pos + field_width(bank_type)) == field_bytes(value, endian, bank_type),
    ensures
        field_at(bytes, pos, endian, bank_type) == value,
{
    match bank_type {
        BankType::B16 => lemma_u16_round_trip(bytes, pos, value, endian),
        _ => lemma_u32_round_trip(bytes, pos, value, endian),
    }
}

/// Decoding the encoding of a bank gives the bank back: for each of the
/// three layouts, each byte order and each known type code, whatever stands
/// in front of the encoding, behind it and in the reserved bytes, the decoder
/// returns the name, the type of the code and the data, and stops behind the
/// data.
pub proof fn law_bank_round_trip(
    prefix: Seq<u8>,
    suffix: Seq<u8>,
    name: Seq<u8>,
    code: int,
    data: Seq<u8>,
    reserved: Seq<u8>,
    endian: Endianness,
    bank_type: BankType,
)
    requires
        encodable_bank(name, code, data, reserved, bank_type),
    ensures
        parse_bank(
            prefix + bank_bytes(name, code, data, reserved, endian, bank_type) + suffix,
            prefix.len() as int,
            endian,
            bank_type,
        ) == Ok::<ParsedBank, BankFailure>(
            ParsedBank {
                bank: BankSpec { name, data_type: data_type_of_code(code)->Some_0, data },
                next: prefix.len() + header_length(bank_type) + data.len(),
            },
        ),
{
    let encoding = bank_bytes(name, code, data, reserved, endian, bank_type);
    let bytes = prefix + encoding + suffix;
    let pos = prefix.len() as int;
    let width = field_width(bank_type);
    let data_at = pos + header_length(bank_type);
    assert(encoding.len() == header_length(bank_type) + data.len());
    assert(bytes.subrange(pos, pos + 4) =~= name);
    assert(bytes.subrange(pos + 4, pos + 4 + width) =~= field_bytes(code, endian, bank_type));
    assert(bytes.subrange(pos + 4 + width, pos + 4 + 2 * width) =~= field_bytes(
        data.len() as int,
        endian,
        bank_type,
    ));
    assert(bytes.subrange(data_at, data_at + data.len()) =~= data);
    assert(0 <= code <= 18);
    lemma_field_round_trip(bytes, pos + 4, code, endian, bank_type);
    lemma_field_round_trip(bytes, pos + 4 + width, data.len() as int, endian, bank_type);
}

/// A slice that holds the encoding of a bank and nothing else is decoded to
/// that bank.
pub proof fn law_bank_slice_round_trip(
    name: Seq<u8>,
    code: int,
    data: Seq<u8>,
    reserved: Seq<u8>,
    endian: Endianness,
    bank_type: BankType,
)
    requires
        encodable_bank(name, code, data, reserved, bank_type),
    ensures
        bank_of_slice(bank_bytes(name, code, data, reserved, endian, bank_type), endian, bank_type)
            == Ok::<BankSpec, TryBankViewFromSliceError>(
            BankSpec { name, data_type: data_type_of_code(code)->Some_0, data },
        ),
{
    let encoding = bank_bytes(name, code, data, reserved, endian, bank_type);
    assert(Seq::<u8>::empty() + encoding + Seq::<u8>::empty() =~= encoding);
    assert(encoding.len() == header_length(bank_type) + data.len());
    law_bank_round_trip(Seq::empty(), Seq::empty(), name, code, data, reserved, endian, bank_type);
}

/// The padding of a length is between 0 and 7 and rounds the length up to a
/// multiple of eight.
pub proof fn law_padding(len: int)
    requires
        0 <= len,
    ensures
        0 <= padding_of(len) <= 7,
        (len + padding_of(len)) % 8 == 0,
{
}

/// Decoding is a function of the bytes: two results of decoding the same
/// buffer agree on whether it is a file, on every field of the file and on
/// every field of the failure.
pub proof fn law_decoding_is_repeatable(
    bytes: &[u8],
    first: Result<FileView, ParseError>,
    second: Result<FileView, ParseError>,
)
    requires
        call_ensures(FileView::try_from_bytes, (bytes,), first),
        call_ensures(FileView::try_from_bytes, (bytes,), second),
    ensures
        first is Ok == second is Ok,
        first is Ok ==> first->Ok_0@ == second->Ok_0@,
        first is Err ==> first->Err_0 == second->Err_0,
{
}

/// An event that declares no banks is an event without banks: where the
/// header lies inside the buffer, the event size is 8, the size of all banks
/// is 0 and the flags select a layout, decoding succeeds with an empty
/// sequence of banks and stops behind the header.
pub proof fn law_event_without_banks(bytes: Seq<u8>, pos: int, endian: Endianness)
    requires
        fits(bytes.len() as int, pos, 24),
        u32_at(bytes, pos + 12, endian) == 8,
        u32_at(bytes, pos + 16, endian) == 0,
        bank_type_of_flags(u32_at(bytes, pos + 20, endian)) is Some,
    ensures
        parse_event(bytes, pos, endian) is Ok,
        parse_event(bytes, pos, endian)->Ok_0.event.banks.len() == 0,
        parse_event(bytes, pos, endian)->Ok_0.next == pos + 24,
{
    let area = bytes.subrange(pos + 24, pos + 24);
    let bank_type = bank_type_of_flags(u32_at(bytes, pos + 20, endian))->Some_0;
    assert(area.len() == 0);
    assert(parse_padded_bank(area, 0, endian, bank_type) is Err);
    assert(banks_end(area, 0, endian, bank_type) == 0);
    assert(banks_from(area, 0, endian, bank_type).len() == 0);
}

/// An event size below 8 is rejected whatever else the buffer holds: where
/// the fields up to the event size lie inside the buffer, decoding fails at
/// the event size with `HeaderTooShort`.
pub proof fn law_event_size_below_minimum(bytes: Seq<u8>, pos: int, endian: Endianness)
    requires
        fits(bytes.len() as int, pos, 16),
        u32_at(bytes, pos + 12, endian) < 8,
    ensures
        parse_event(bytes, pos, endian) == Err::<ParsedEvent, EventFailure>(
            plain_failure(pos + 12, TryEventViewFromSliceError::HeaderTooShort),
        ),
{
}

/// A closing run number that differs from the opening one is a run-number
/// mismatch, whatever follows it: where the opening part of the file is
/// well formed and the end-of-run marker and its constant stand behind the
/// events, decoding fails at the closing run number with
/// `RunNumberMismatch`.
pub proof fn law_run_number_mismatch(bytes: Seq<u8>)
    requires
        initial_failure(bytes) is None,
        ({
            let endian = detect_endianness(bytes)->Some_0;
            let end = events_end(bytes, events_start(bytes, endian), endian);
            &&& fits(bytes.len() as int, end, 8)
            &&& u16_at(bytes, end, endian) == EOR_ID
            &&& u16_at(bytes, end + 2, endian) == MAGIC
            &&& u32_at(bytes, end + 4, endian) != u32_at(bytes, 4, endian)
        }),
    ensures
        parse_file(bytes) == Err::<FileSpec, FileFailure>(
            file_failure(
                events_end(
                    bytes,
                    events_start(bytes, detect_endianness(bytes)->Some_0),
                    detect_endianness(bytes)->Some_0,
                ) + 4,
                TryFileViewFromSliceError::RunNumberMismatch,
            ),
        ),
{
}

/// The offset of the closing envelope of a file: the first offset behind the
/// initial dump at which no event can be decoded.
pub open spec fn closing_offset(bytes: Seq<u8>) -> int {
    let endian = detect_endianness(bytes)->Some_0;
    events_end(bytes, events_start(bytes, endian), endian)
}

/// Whether two buffers of one length hold the same bytes everywhere but in
/// the four bytes from `at` on.
pub open spec fn same_but_four_bytes(a: Seq<u8>, b: Seq<u8>, at: int) -> bool {
    &&& a.len() == b.len()
    &&& forall|i: int| 0 <= i < a.len() && !(at <= i < at + 4) ==> a[i] == b[i]
}

/// An event is decoded from its own bytes alone: a buffer of the same length
/// that holds the same bytes where the event lies holds the same event there.
pub proof fn lemma_event_frame(a: Seq<u8>, b: Seq<u8>, pos: int, endian: Endianness)
    requires
        a.len() == b.len(),
        parse_event(a, pos, endian) is Ok,
        forall|i: int| pos <= i < parse_event(a, pos, endian)->Ok_0.next ==> a[i] == b[i],
    ensures
        parse_event(b, pos, endian) == parse_event(a, pos, endian),
{
    let size = u32_at(a, pos + 16, endian);
    assert(a.subrange(pos + 24, pos + 24 + size) =~= b.subrange(pos + 24, pos + 24 + size));
}

/// Whether the bytes at `pos` are an event does not depend on the four bytes
/// of the serial number.
pub proof fn lemma_event_failure_frame(a: Seq<u8>, b: Seq<u8>, pos: int, endian: Endianness)
    requires
        0 <= pos,
        same_but_four_bytes(a, b, pos + 4),
        parse_event(a, pos, endian) is Err,
    ensures
        parse_event(b, pos, endian) is Err,
{
    let size = u32_at(a, pos + 16, endian);
    if fits(a.len() as int, pos + 24, size) {
        assert(a.subrange(pos + 24, pos + 24 + size) =~= b.subrange(pos + 24, pos + 24 + size));
    }
}

/// The events in front of `end` are the same in two buffers that differ only
/// in the four bytes from `end + 4` on, and they end at `end` in both.
pub proof fn lemma_events_frame(a: Seq<u8>, b: Seq<u8>, pos: int, end: int, endian: Endianness)
    requires
        0 <= pos <= a.len(),
        same_but_four_bytes(a, b, end + 4),
        events_end(a, pos, endian) == end,
    ensures
        events_end(b, pos, endian) == end,
        events_from(b, pos, endian) == events_from(a, pos, endian),
    decreases a.len() - pos,
{
    lemma_event_advances(a, pos, endian);
    lemma_events_end(a, pos, endian);
    match parse_event(a, pos, endian) {
        Ok(parsed) => {
            lemma_events_end(a, parsed.next, endian);
            lemma_event_frame(a, b, pos, endian);
            lemma_events_frame(a, b, parsed.next, end, endian);
        },
        Err(_) => {
            lemma_event_failure_frame(a, b, pos, endian);
        },
    }
}

/// A file whose closing run number is changed is no file any more: where
/// `valid` is a file and `other` holds the same bytes but for the four bytes
/// of the closing run number, which now encode another number than the
/// opening one, decoding `other` fails at the closing run number with
/// `RunNumberMismatch`.
pub proof fn law_closing_run_number_must_match(valid: Seq<u8>, other: Seq<u8>)
    requires
        parse_file(valid) is Ok,
        same_but_four_bytes(valid, other, closing_offset(valid) + 4),
        u32_at(other, closing_offset(valid) + 4, detect_endianness(valid)->Some_0) != u32_at(
            valid,
            4,
            detect_endianness(valid)->Some_0,
        ),
    ensures
        parse_file(other) == Err::<FileSpec, FileFailure>(
            file_failure(closing_offset(valid) + 4, TryFileViewFromSliceError::RunNumberMismatch),
        ),
{
    let endian = detect_endianness(valid)->Some_0;
    let start = events_start(valid, endian);
    let end = closing_offset(valid);
    lemma_events_end(valid, start, endian);
    lemma_events_frame(valid, other, start, end, endian);
    assert(detect_endianness(other) == detect_endianness(valid));
    assert(events_start(other, endian) == start);
    assert(initial_failure(other) is None);
}

} // verus!
