//! Events: a header and a sequence of banks of one layout.

use vstd::prelude::*;
use vstd::std_specs::iter::IteratorSpec;
use crate::bank::{
    bank_label, bank_type_of_flags, banks_end, banks_from, lemma_bank_advances,
    parse_padded_bank, BankFailure, BankSpec, BankType, TryBankViewFromBytesError,
};
use crate::banks::RawBankViews;
use crate::views::BankView;
use crate::wire::{fits, has_bytes, read_u16, read_u32, take, u16_at, u32_at, Endianness};

verus! {

/// Why a byte slice is no event.
#[derive(Clone, Copy, Debug, PartialEq, Eq, Structural)]
pub enum TryEventViewFromSliceError {
    /// The event size is not the size of all banks plus 8.
    EventAndBanksMismatch,
    /// The slice ends inside the event, or goes on after it.
    SizeMismatch,
    /// The area of the banks is no sequence of padded banks.
    BadBank,
    /// The flags select no bank layout.
    UnknownFlag,
    /// The event size is less than 8, too small for the two fields that it
    /// counts.
    HeaderTooShort,
}

impl TryEventViewFromSliceError {
    /// A sentence that describes the error.
    pub fn message(&self) -> (r: &'static str)
        ensures
            r@ == match *self {
                TryEventViewFromSliceError::EventAndBanksMismatch =>
                    "event size and all banks size (header fields) mismatch"@,
                TryEventViewFromSliceError::SizeMismatch =>
                    "size field and all banks slice mismatch"@,
                TryEventViewFromSliceError::BadBank => "sub-slice incompatible with a bank view"@,
                TryEventViewFromSliceError::UnknownFlag => "unknown flag"@,
                TryEventViewFromSliceError::HeaderTooShort => "event size below its minimum"@,
            },
    {
        match self {
            TryEventViewFromSliceError::EventAndBanksMismatch => {
                "event size and all banks size (header fields) mismatch"
            },
            TryEventViewFromSliceError::SizeMismatch => "size field and all banks slice mismatch",
            TryEventViewFromSliceError::BadBank => "sub-slice incompatible with a bank view",
            TryEventViewFromSliceError::UnknownFlag => "unknown flag",
            TryEventViewFromSliceError::HeaderTooShort => "event size below its minimum",
        }
    }
}

impl TryEventViewFromSliceError {
    /// The name of the field that the error is about.
    pub fn label(&self) -> (r: &'static str)
        ensures
            r@ == event_label(*self),
    {
        match self {
            TryEventViewFromSliceError::EventAndBanksMismatch => "all banks size",
            TryEventViewFromSliceError::SizeMismatch => "event",
            TryEventViewFromSliceError::BadBank => "all banks slice",
            TryEventViewFromSliceError::UnknownFlag => "flags",
            TryEventViewFromSliceError::HeaderTooShort => "event size",
        }
    }
}

/// The name of the field that an error of an event is about.
pub open spec fn event_label(kind: TryEventViewFromSliceError) -> Seq<char> {
    match kind {
        TryEventViewFromSliceError::EventAndBanksMismatch => "all banks size"@,
        TryEventViewFromSliceError::SizeMismatch => "event"@,
        TryEventViewFromSliceError::BadBank => "all banks slice"@,
        TryEventViewFromSliceError::UnknownFlag => "flags"@,
        TryEventViewFromSliceError::HeaderTooShort => "event size"@,
    }
}

/// The labels of the fields that were being decoded when an event failed,
/// from the event down to the bank.
pub open spec fn event_trail(e: TryEventViewFromBytesError) -> Seq<Seq<char>> {
    match e.cause {
        Some(bad) => seq![event_label(e.kind), bank_label(bad.error.kind)],
        None => seq![event_label(e.kind)],
    }
}

/// The views of a vector of labels.
pub open spec fn label_views(labels: Seq<&'static str>) -> Seq<Seq<char>> {
    Seq::new(labels.len(), |i: int| labels[i]@)
}

impl TryEventViewFromBytesError {
    /// The labels of the fields that were being decoded, outermost first.
    pub fn trail(&self) -> (r: Vec<&'static str>)
        ensures
            label_views(r@) == event_trail(*self),
    {
        let mut labels: Vec<&'static str> = Vec::new();
        labels.push(self.kind.label());
        match self.cause {
            Some(bad) => {
                labels.push(bad.error.label());
            },
            None => {},
        }
        assert(label_views(labels@) =~= event_trail(*self));
        labels
    }
}

/// A bank that could not be decoded: its index in the event and the failure,
/// with the offset counted in the buffer that holds the event.
#[derive(Clone, Copy, Debug, PartialEq, Eq, Structural)]
pub struct BadBank {
    /// The number of banks that were decoded in front of it.
    pub index: usize,
    /// Where and why decoding the bank stopped.
    pub error: TryBankViewFromBytesError,
}

/// A failed attempt to decode an event inside a buffer: where it stopped and
/// why.
#[derive(Clone, Copy, Debug, PartialEq, Eq, Structural)]
pub struct TryEventViewFromBytesError {
    /// The offset in the buffer of the field that could not be decoded.
    pub offset: usize,
    /// What was wrong with it.
    pub kind: TryEventViewFromSliceError,
    /// The bank that could not be decoded, where `kind` is `BadBank`.
    pub cause: Option<BadBank>,
}

/// What a decoded event holds.
pub struct EventSpec {
    /// The event id.
    pub id: int,
    /// The trigger mask.
    pub trigger_mask: int,
    /// The serial number.
    pub serial_number: int,
    /// The unix timestamp.
    pub timestamp: int,
    /// The flags, which select the layout of the banks.
    pub flags: int,
    /// The bytes of all banks with their padding.
    pub all_banks: Seq<u8>,
    /// The banks, in the order of the bytes.
    pub banks: Seq<BankSpec>,
}

/// A decoded event and the offset of the first byte behind it.
pub struct ParsedEvent {
    /// The event.
    pub event: EventSpec,
    /// The offset of the first byte behind the event.
    pub next: int,
}

/// Where and why decoding a bank inside an event stops.
pub struct BadBankSpec {
    /// The number of banks in front of it.
    pub index: int,
    /// The failure, with the offset counted in the buffer that holds the
    /// event.
    pub failure: BankFailure,
}

/// Where and why decoding an event stops.
pub struct EventFailure {
    /// The offset of the field that could not be decoded.
    pub offset: int,
    /// What was wrong with it.
    pub kind: TryEventViewFromSliceError,
    /// The bank that could not be decoded, where `kind` is `BadBank`.
    pub cause: Option<BadBankSpec>,
}

/// A failure without a bank behind it.
pub open spec fn plain_failure(offset: int, kind: TryEventViewFromSliceError) -> EventFailure {
    EventFailure { offset, kind, cause: None }
}

/// The failure of an event whose area of banks, which starts at `area_at`,
/// holds no padded bank at its offset `stop`.
pub open spec fn bad_bank_failure(
    area: Seq<u8>,
    area_at: int,
    endian: Endianness,
    bank_type: BankType,
) -> EventFailure {
    let stop = banks_end(area, 0, endian, bank_type);
    let inner = parse_padded_bank(area, stop, endian, bank_type)->Err_0;
    EventFailure {
        offset: area_at + inner.offset,
        kind: TryEventViewFromSliceError::BadBank,
        cause: Some(
            BadBankSpec {
                index: banks_from(area, 0, endian, bank_type).len() as int,
                failure: BankFailure { offset: area_at + inner.offset, kind: inner.kind },
            },
        ),
    }
}

/// The event that starts at `pos`, field by field: id, trigger mask, serial
/// number, timestamp, event size, size of all banks, flags, and then as many
/// bytes as the size of all banks says, which must be padded banks of the
/// layout that the flags select, from the first byte to the last. The first
/// field that cannot be decoded gives the failure.
pub open spec fn parse_event(bytes: Seq<u8>, pos: int, endian: Endianness) -> Result<
    ParsedEvent,
    EventFailure,
> {
    let total = bytes.len() as int;
    let event_size = u32_at(bytes, pos + 12, endian);
    let banks_size = u32_at(bytes, pos + 16, endian);
    let flags = u32_at(bytes, pos + 20, endian);
    let area_at = pos + 24;
    let area = bytes.subrange(area_at, area_at + banks_size);
    if !fits(total, pos, 2) {
        Err(plain_failure(pos, TryEventViewFromSliceError::SizeMismatch))
    } else if !fits(total, pos + 2, 2) {
        Err(plain_failure(pos + 2, TryEventViewFromSliceError::SizeMismatch))
    } else if !fits(total, pos + 4, 4) {
        Err(plain_failure(pos + 4, TryEventViewFromSliceError::SizeMismatch))
    } else if !fits(total, pos + 8, 4) {
        Err(plain_failure(pos + 8, TryEventViewFromSliceError::SizeMismatch))
    } else if !fits(total, pos + 12, 4) {
        Err(plain_failure(pos + 12, TryEventViewFromSliceError::SizeMismatch))
    } else if event_size < 8 {
        Err(plain_failure(pos + 12, TryEventViewFromSliceError::HeaderTooShort))
    } else if !fits(total, pos + 16, 4) {
        Err(plain_failure(pos + 16, TryEventViewFromSliceError::SizeMismatch))
    } else if banks_size != event_size - 8 {
        Err(plain_failure(pos + 16, TryEventViewFromSliceError::EventAndBanksMismatch))
    } else if !fits(total, pos + 20, 4) {
        Err(plain_failure(pos + 20, TryEventViewFromSliceError::SizeMismatch))
    } else if bank_type_of_flags(flags) is None {
        Err(plain_failure(pos + 20, TryEventViewFromSliceError::UnknownFlag))
    } else if !fits(total, area_at, banks_size) {
        Err(plain_failure(area_at, TryEventViewFromSliceError::SizeMismatch))
    } else if banks_end(area, 0, endian, bank_type_of_flags(flags)->Some_0) != banks_size {
        Err(bad_bank_failure(area, area_at, endian, bank_type_of_flags(flags)->Some_0))
    } else {
        Ok(
            ParsedEvent {
                event: EventSpec {
                    id: u16_at(bytes, pos, endian),
                    trigger_mask: u16_at(bytes, pos + 2, endian),
                    serial_number: u32_at(bytes, pos + 4, endian),
                    timestamp: u32_at(bytes, pos + 8, endian),
                    flags,
                    all_banks: area,
                    banks: banks_from(area, 0, endian, bank_type_of_flags(flags)->Some_0),
                },
                next: area_at + banks_size,
            },
        )
    }
}

/// The event that a whole slice holds: it starts at offset 0 and ends with
/// the slice.
pub open spec fn event_of_slice(bytes: Seq<u8>, endian: Endianness) -> Result<
    EventSpec,
    TryEventViewFromSliceError,
> {
    match parse_event(bytes, 0, endian) {
        Ok(parsed) => if parsed.next == bytes.len() {
            Ok(parsed.event)
        } else {
            Err(TryEventViewFromSliceError::SizeMismatch)
        },
        Err(failure) => Err(failure.kind),
    }
}

/// Whether an executable failure is the one of the model.
pub open spec fn event_error_matches(e: TryEventViewFromBytesError, failure: EventFailure) -> bool {
    &&& e.offset as int == failure.offset
    &&& e.kind == failure.kind
    &&& e.cause is Some == failure.cause is Some
    &&& e.cause is Some ==> {
        &&& e.cause->Some_0.index as int == failure.cause->Some_0.index
        &&& e.cause->Some_0.error.offset as int == failure.cause->Some_0.failure.offset
        &&& e.cause->Some_0.error.kind == failure.cause->Some_0.failure.kind
    }
}

/// No padded bank can be decoded where the sequence of banks ends, and the
/// sequence ends inside the buffer.
pub proof fn lemma_banks_end(bytes: Seq<u8>, pos: int, endian: Endianness, bank_type: BankType)
    requires
        0 <= pos <= bytes.len(),
    ensures
        pos <= banks_end(bytes, pos, endian, bank_type) <= bytes.len(),
        parse_padded_bank(bytes, banks_end(bytes, pos, endian, bank_type), endian, bank_type) is Err,
        banks_from(bytes, pos, endian, bank_type).len() <= banks_end(bytes, pos, endian, bank_type)
            - pos,
    decreases bytes.len() - pos,
{
    lemma_bank_advances(bytes, pos, endian, bank_type);
    match parse_padded_bank(bytes, pos, endian, bank_type) {
        Ok(parsed) => {
            lemma_banks_end(bytes, parsed.next, endian, bank_type);
        },
        Err(_) => {},
    }
}

/// A failed bank stops at an offset inside the buffer or at its end.
pub proof fn lemma_bank_failure_offset(
    bytes: Seq<u8>,
    pos: int,
    endian: Endianness,
    bank_type: BankType,
)
    requires
        0 <= pos <= bytes.len(),
    ensures
        parse_padded_bank(bytes, pos, endian, bank_type) is Err ==> pos <= parse_padded_bank(
            bytes,
            pos,
            endian,
            bank_type,
        )->Err_0.offset <= bytes.len(),
{
}

/// An immutable view to an event in a MIDAS file.
///
/// An event is a collection of [`BankView`]s.
#[derive(Clone, Debug)]
pub struct EventView<'a> {
    event_id: u16,
    trigger_mask: u16,
    serial_number: u32,
    timestamp: u32,
    flags: u32,
    all_banks: &'a [u8],
    bank_views: Vec<BankView<'a>>,
}

impl<'a> View for EventView<'a> {
    type V = EventSpec;

    closed spec fn view(&self) -> EventSpec {
        EventSpec {
            id: self.event_id as int,
            trigger_mask: self.trigger_mask as int,
            serial_number: self.serial_number as int,
            timestamp: self.timestamp as int,
            flags: self.flags as int,
            all_banks: self.all_banks@,
            banks: Seq::new(self.bank_views@.len(), |i: int| self.bank_views@[i]@),
        }
    }
}

impl<'a> EventView<'a> {
    /// The wire layout of each bank of the event.
    pub closed spec fn layouts(&self) -> Seq<BankType> {
        Seq::new(self.bank_views@.len(), |i: int| self.bank_views@[i].bank_type())
    }

    /// Create a native view to the underlying event from its representation
    /// as a byte slice in little endian. The slice holds the event and
    /// nothing else.
    pub fn try_from_le_bytes(bytes: &'a [u8]) -> (r: Result<Self, TryEventViewFromSliceError>)
        ensures
            r is Ok == event_of_slice(bytes@, Endianness::LittleEndian) is Ok,
            r is Ok ==> r->Ok_0@ == event_of_slice(bytes@, Endianness::LittleEndian)->Ok_0
                && uniform_layout(r->Ok_0),
            r is Err ==> r->Err_0 == event_of_slice(bytes@, Endianness::LittleEndian)->Err_0,
    {
        event_from_slice(bytes, Endianness::LittleEndian)
    }

    /// Create a native view to the underlying event from its representation
    /// as a byte slice in big endian. The slice holds the event and nothing
    /// else.
    pub fn try_from_be_bytes(bytes: &'a [u8]) -> (r: Result<Self, TryEventViewFromSliceError>)
        ensures
            r is Ok == event_of_slice(bytes@, Endianness::BigEndian) is Ok,
            r is Ok ==> r->Ok_0@ == event_of_slice(bytes@, Endianness::BigEndian)->Ok_0
                && uniform_layout(r->Ok_0),
            r is Err ==> r->Err_0 == event_of_slice(bytes@, Endianness::BigEndian)->Err_0,
    {
        event_from_slice(bytes, Endianness::BigEndian)
    }

    /// Returns the event ID.
    pub fn id(&self) -> (r: u16)
        ensures
            r as int == self@.id,
    {
        self.event_id
    }

    /// Returns the trigger mask of the event.
    pub fn trigger_mask(&self) -> (r: u16)
        ensures
            r as int == self@.trigger_mask,
    {
        self.trigger_mask
    }

    /// Returns the serial number of the event.
    pub fn serial_number(&self) -> (r: u32)
        ensures
            r as int == self@.serial_number,
    {
        self.serial_number
    }

    /// Returns the unix timestamp of the event.
    pub fn timestamp(&self) -> (r: u32)
        ensures
            r as int == self@.timestamp,
    {
        self.timestamp
    }

    /// Returns the unix timestamp of the event.
    pub fn time_stamp(&self) -> (r: u32)
        ensures
            r as int == self@.timestamp,
    {
        self.timestamp
    }

    /// Returns the flags of the event, which select the layout of its banks.
    pub fn flags(&self) -> (r: u32)
        ensures
            r as int == self@.flags,
    {
        self.flags
    }

    /// Returns the bytes of all banks of the event, with their padding.
    pub fn all_banks_slice(&self) -> (r: &'a [u8])
        ensures
            r@ == self@.all_banks,
    {
        self.all_banks
    }

    /// Returns the data banks of the event, in the order of the bytes.
    pub fn banks(&self) -> (r: &[BankView<'a>])
        ensures
            r@.len() == self@.banks.len(),
            r@.len() == self.layouts().len(),
            forall|i: int|
                0 <= i < r@.len() ==> (#[trigger] r@[i])@ == self@.banks[i] && r@[i].bank_type()
                    == self.layouts()[i],
    {
        self.bank_views.as_slice()
    }

    /// Returns an iterator over the data banks of the event.
    pub fn iter(&self) -> (r: std::slice::Iter<'_, BankView<'a>>)
        ensures
            r.remaining().len() == self@.banks.len(),
            forall|i: int|
                0 <= i < r.remaining().len() ==> (#[trigger] r.remaining()[i])@ == self@.banks[i],
    {
        broadcast use vstd::std_specs::slice::axiom_spec_slice_iter;

        self.bank_views.as_slice().iter()
    }
}

impl<'a> IntoIterator for EventView<'a> {
    type Item = BankView<'a>;

    type IntoIter = std::vec::IntoIter<BankView<'a>>;

    fn into_iter(self) -> (r: std::vec::IntoIter<BankView<'a>>)
        ensures
            r.remaining().len() == self@.banks.len(),
            forall|i: int|
                0 <= i < r.remaining().len() ==> (#[trigger] r.remaining()[i])@ == self@.banks[i],
    {
        broadcast use vstd::std_specs::vec::axiom_spec_into_iter;

        self.bank_views.into_iter()
    }
}

impl<'a, 'b> IntoIterator for &'b EventView<'a> {
    type Item = &'b BankView<'a>;

    type IntoIter = std::slice::Iter<'b, BankView<'a>>;

    fn into_iter(self) -> (r: std::slice::Iter<'b, BankView<'a>>)
        ensures
            r.remaining().len() == self@.banks.len(),
            forall|i: int|
                0 <= i < r.remaining().len() ==> (#[trigger] r.remaining()[i])@ == self@.banks[i],
    {
        broadcast use vstd::std_specs::slice::axiom_spec_slice_iter;

        self.bank_views.as_slice().iter()
    }
}

/// Every bank of the event has the layout that the flags of the event
/// select.
pub open spec fn uniform_layout(event: EventView) -> bool {
    &&& event.layouts().len() == event@.banks.len()
    &&& forall|i: int|
        0 <= i < event.layouts().len() ==> Some(#[trigger] event.layouts()[i])
            == bank_type_of_flags(event@.flags)
}

/// Decodes the event that a whole slice holds.
pub fn event_from_slice<'a>(bytes: &'a [u8], endian: Endianness) -> (r: Result<
    EventView<'a>,
    TryEventViewFromSliceError,
>)
    ensures
        r is Ok == event_of_slice(bytes@, endian) is Ok,
        r is Ok ==> r->Ok_0@ == event_of_slice(bytes@, endian)->Ok_0 && uniform_layout(r->Ok_0),
        r is Err ==> r->Err_0 == event_of_slice(bytes@, endian)->Err_0,
{
    match event_view(bytes, 0, endian) {
        Ok((event, next)) => if next == bytes.len() {
            Ok(event)
        } else {
            Err(TryEventViewFromSliceError::SizeMismatch)
        },
        Err(e) => Err(e.kind),
    }
}

/// Tells what keeps a whole slice from being an event, or `None` if it is
/// one.
pub fn error_in_event_view(bytes: &[u8], endian: Endianness) -> (r: Option<
    TryEventViewFromSliceError,
>)
    ensures
        r is None == event_of_slice(bytes@, endian) is Ok,
        r is Some ==> r->Some_0 == event_of_slice(bytes@, endian)->Err_0,
{
    match event_from_slice(bytes, endian) {
        Ok(_) => None,
        Err(e) => Some(e),
    }
}

/// Decodes the event that starts at `pos`; on success the second component
/// is the offset of the first byte behind the event.
pub fn event_view<'a>(bytes: &'a [u8], pos: usize, endian: Endianness) -> (r: Result<
    (EventView<'a>, usize),
    TryEventViewFromBytesError,
>)
    ensures
        r is Ok == parse_event(bytes@, pos as int, endian) is Ok,
        r is Ok ==> r->Ok_0.0@ == parse_event(bytes@, pos as int, endian)->Ok_0.event
            && r->Ok_0.1 as int == parse_event(bytes@, pos as int, endian)->Ok_0.next,
        r is Ok ==> uniform_layout(r->Ok_0.0),
        r is Err ==> event_error_matches(r->Err_0, parse_event(bytes@, pos as int, endian)->Err_0),
{
    let short = TryEventViewFromSliceError::SizeMismatch;
    if !has_bytes(bytes, pos, 2) {
        return Err(TryEventViewFromBytesError { offset: pos, kind: short, cause: None });
    }
    let event_id = read_u16(bytes, pos, endian);
    if !has_bytes(bytes, pos + 2, 2) {
        return Err(TryEventViewFromBytesError { offset: pos + 2, kind: short, cause: None });
    }
    let trigger_mask = read_u16(bytes, pos + 2, endian);
    if !has_bytes(bytes, pos + 4, 4) {
        return Err(TryEventViewFromBytesError { offset: pos + 4, kind: short, cause: None });
    }
    let serial_number = read_u32(bytes, pos + 4, endian);
    if !has_bytes(bytes, pos + 8, 4) {
        return Err(TryEventViewFromBytesError { offset: pos + 8, kind: short, cause: None });
    }
    let timestamp = read_u32(bytes, pos + 8, endian);
    if !has_bytes(bytes, pos + 12, 4) {
        return Err(TryEventViewFromBytesError { offset: pos + 12, kind: short, cause: None });
    }
    let event_size = read_u32(bytes, pos + 12, endian);
    if event_size < 8 {
        return Err(
            TryEventViewFromBytesError {
                offset: pos + 12,
                kind: TryEventViewFromSliceError::HeaderTooShort,
                cause: None,
            },
        );
    }
    if !has_bytes(bytes, pos + 16, 4) {
        return Err(TryEventViewFromBytesError { offset: pos + 16, kind: short, cause: None });
    }
    let banks_size = read_u32(bytes, pos + 16, endian);
    if banks_size != event_size - 8 {
        return Err(
            TryEventViewFromBytesError {
                offset: pos + 16,
                kind: TryEventViewFromSliceError::EventAndBanksMismatch,
                cause: None,
            },
        );
    }
    if !has_bytes(bytes, pos + 20, 4) {
        return Err(TryEventViewFromBytesError { offset: pos + 20, kind: short, cause: None });
    }
    let flags = read_u32(bytes, pos + 20, endian);
    let bank_type = match BankType::from_flags(flags) {
        Some(bank_type) => bank_type,
        None => {
            return Err(
                TryEventViewFromBytesError {
                    offset: pos + 20,
                    kind: TryEventViewFromSliceError::UnknownFlag,
                    cause: None,
                },
            );
        },
    };
    let area_at = pos + 24;
    let size = banks_size as usize;
    if !has_bytes(bytes, area_at, size) {
        return Err(TryEventViewFromBytesError { offset: area_at, kind: short, cause: None });
    }
    let all_banks = take(bytes, area_at, size);
    proof {
        lemma_banks_end(all_banks@, 0, endian, bank_type);
    }
    let (bank_views, stop, inner) = RawBankViews::new(all_banks, endian, bank_type).collect();
    if stop != size {
        proof {
            lemma_bank_failure_offset(all_banks@, stop as int, endian, bank_type);
        }
        let error = TryBankViewFromBytesError {
            offset: area_at + inner.offset,
            kind: inner.kind,
        };
        Err(
            TryEventViewFromBytesError {
                offset: area_at + inner.offset,
                kind: TryEventViewFromSliceError::BadBank,
                cause: Some(BadBank { index: bank_views.len(), error }),
            },
        )
    } else {
        let event = EventView {
            event_id,
            trigger_mask,
            serial_number,
            timestamp,
            flags,
            all_banks,
            bank_views,
        };
        assert(event@.banks =~= banks_from(all_banks@, 0, endian, bank_type));
        Ok((event, area_at + size))
    }
}

} // verus!
