//! Files: two database dumps around a sequence of events.

use vstd::prelude::*;
use vstd::std_specs::iter::IteratorSpec;
use vstd::string::StringExecFns;
use crate::event::{
    event_error_matches, event_trail, label_views, parse_event, EventFailure, EventSpec,
    EventView, TryEventViewFromBytesError,
};
use crate::events::{event_specs, events_end, events_from, lemma_events_end, EventViews};
use crate::text::{decimal, decimal_string};
use crate::wire::{fits, has_bytes, read_u16, read_u32, take, u16_at, u32_at, Endianness};

verus! {

/// The marker at the start of a file.
pub const BOR_ID: u16 = 0x8000;

/// The marker in front of the final database dump.
pub const EOR_ID: u16 = 0x8001;

/// The constant that follows each of the two markers.
pub const MAGIC: u16 = 0x494D;

/// Why a byte slice is no file.
#[derive(Clone, Copy, Debug, PartialEq, Eq, Structural)]
pub enum TryFileViewFromSliceError {
    /// The begin-of-run marker is absent or wrong.
    BadBorId,
    /// The constant behind the begin-of-run marker is absent or wrong.
    BadBorMi,
    /// The slice ends inside the initial run number, timestamp, or dump.
    IniOdbSizeMismatch,
    /// What follows the events is no end-of-run marker.
    BadEorId,
    /// The constant behind the end-of-run marker is absent or wrong.
    BadEorMi,
    /// The slice ends inside the final run number, timestamp, or dump.
    FinOdbSizeMismatch,
    /// The two run numbers differ.
    RunNumberMismatch,
    /// The slice goes on after the final dump.
    TrailingBytes,
}

impl TryFileViewFromSliceError {
    /// A sentence that describes the error.
    pub fn message(&self) -> (r: &'static str)
        ensures
            r@ == match *self {
                TryFileViewFromSliceError::BadBorId => "begin of run id different to 0x8000"@,
                TryFileViewFromSliceError::BadBorMi =>
                    "begin of run magic midas different to 0x494d"@,
                TryFileViewFromSliceError::IniOdbSizeMismatch => "initial odb size mismatch"@,
                TryFileViewFromSliceError::BadEorId => "end of run id different to 0x8001"@,
                TryFileViewFromSliceError::BadEorMi =>
                    "end of run magic midas different to 0x494d"@,
                TryFileViewFromSliceError::FinOdbSizeMismatch => "final odb size mismatch"@,
                TryFileViewFromSliceError::RunNumberMismatch => "run number mismatch"@,
                TryFileViewFromSliceError::TrailingBytes => "bytes after the final odb dump"@,
            },
    {
        match self {
            TryFileViewFromSliceError::BadBorId => "begin of run id different to 0x8000",
            TryFileViewFromSliceError::BadBorMi => "begin of run magic midas different to 0x494d",
            TryFileViewFromSliceError::IniOdbSizeMismatch => "initial odb size mismatch",
            TryFileViewFromSliceError::BadEorId => "end of run id different to 0x8001",
            TryFileViewFromSliceError::BadEorMi => "end of run magic midas different to 0x494d",
            TryFileViewFromSliceError::FinOdbSizeMismatch => "final odb size mismatch",
            TryFileViewFromSliceError::RunNumberMismatch => "run number mismatch",
            TryFileViewFromSliceError::TrailingBytes => "bytes after the final odb dump",
        }
    }

    /// The name of the field that the error is about.
    pub fn label(&self) -> (r: &'static str)
        ensures
            r@ == file_label(*self),
    {
        match self {
            TryFileViewFromSliceError::BadBorId => "begin-of-run id",
            TryFileViewFromSliceError::BadBorMi => "initial magic marker",
            TryFileViewFromSliceError::IniOdbSizeMismatch => "initial odb dump",
            TryFileViewFromSliceError::BadEorId => "end-of-run id",
            TryFileViewFromSliceError::BadEorMi => "final magic marker",
            TryFileViewFromSliceError::FinOdbSizeMismatch => "final odb dump",
            TryFileViewFromSliceError::RunNumberMismatch => "final run number",
            TryFileViewFromSliceError::TrailingBytes => "end of file",
        }
    }
}

/// The name of the field that an error of a file is about.
pub open spec fn file_label(kind: TryFileViewFromSliceError) -> Seq<char> {
    match kind {
        TryFileViewFromSliceError::BadBorId => "begin-of-run id"@,
        TryFileViewFromSliceError::BadBorMi => "initial magic marker"@,
        TryFileViewFromSliceError::IniOdbSizeMismatch => "initial odb dump"@,
        TryFileViewFromSliceError::BadEorId => "end-of-run id"@,
        TryFileViewFromSliceError::BadEorMi => "final magic marker"@,
        TryFileViewFromSliceError::FinOdbSizeMismatch => "final odb dump"@,
        TryFileViewFromSliceError::RunNumberMismatch => "final run number"@,
        TryFileViewFromSliceError::TrailingBytes => "end of file"@,
    }
}

/// What could not be decoded as one more event: its index in the file and
/// the failure.
#[derive(Clone, Copy, Debug, PartialEq, Eq, Structural)]
pub struct BadEvent {
    /// The number of events that were decoded in front of it.
    pub index: usize,
    /// Where and why decoding the event stopped.
    pub error: TryEventViewFromBytesError,
}

/// The error type returned when parsing a MIDAS file fails.
#[derive(Clone, Copy, Debug, PartialEq, Eq, Structural)]
pub struct ParseError {
    /// The offset in the buffer of the field that could not be decoded.
    pub offset: usize,
    /// What was wrong with it.
    pub kind: TryFileViewFromSliceError,
    /// Where `kind` is `BadEorId`: why the bytes at `offset`, which are no
    /// end-of-run marker, are no event either.
    pub cause: Option<BadEvent>,
}

/// The sentence that describes a failure of a file: the offset in decimal
/// digits and the label of the field.
pub open spec fn parse_error_text(e: ParseError) -> Seq<char> {
    "parsing stopped at byte offset `"@ + decimal(e.offset as nat) + "` (invalid "@ + file_label(
        e.kind,
    ) + ")"@
}

/// The labels of the fields that were being decoded when a file failed, from
/// the file down to the bank.
pub open spec fn file_trail(e: ParseError) -> Seq<Seq<char>> {
    match e.cause {
        Some(bad) => seq![file_label(e.kind)] + event_trail(bad.error),
        None => seq![file_label(e.kind)],
    }
}

impl ParseError {
    /// The labels of the fields that were being decoded, outermost first.
    pub fn trail(&self) -> (r: Vec<&'static str>)
        ensures
            label_views(r@) == file_trail(*self),
    {
        let mut labels: Vec<&'static str> = Vec::new();
        labels.push(self.kind.label());
        match self.cause {
            Some(bad) => {
                labels.push(bad.error.kind.label());
                match bad.error.cause {
                    Some(bank) => {
                        labels.push(bank.error.label());
                    },
                    None => {},
                }
            },
            None => {},
        }
        assert(label_views(labels@) =~= file_trail(*self));
        labels
    }

    /// A sentence that describes the error: it names the offset in decimal
    /// digits and the field that could not be decoded.
    pub fn message(&self) -> (r: String)
        ensures
            r@ == parse_error_text(*self),
    {
        let mut text = String::from_str("parsing stopped at byte offset `");
        let number = decimal_string(self.offset as u128);
        text.append(number.as_str());
        text.append("` (invalid ");
        text.append(self.kind.label());
        text.append(")");
        text
    }
}

/// What a decoded file holds.
pub struct FileSpec {
    /// The byte order that the begin-of-run marker shows.
    pub endian: Endianness,
    /// The run number.
    pub run_number: int,
    /// The unix timestamp of the initial database dump.
    pub initial_timestamp: int,
    /// The initial database dump.
    pub initial_odb: Seq<u8>,
    /// The events, in the order of the bytes.
    pub events: Seq<EventSpec>,
    /// The unix timestamp of the final database dump.
    pub final_timestamp: int,
    /// The final database dump.
    pub final_odb: Seq<u8>,
}

/// What could not be decoded as one more event.
pub struct BadEventSpec {
    /// The number of events in front of it.
    pub index: int,
    /// Where and why decoding the event stopped.
    pub failure: EventFailure,
}

/// Where and why decoding a file stops.
pub struct FileFailure {
    /// The offset of the field that could not be decoded.
    pub offset: int,
    /// What was wrong with it.
    pub kind: TryFileViewFromSliceError,
    /// Where `kind` is `BadEorId`: why the bytes there are no event either.
    pub cause: Option<BadEventSpec>,
}

/// A failure without an event behind it.
pub open spec fn file_failure(offset: int, kind: TryFileViewFromSliceError) -> FileFailure {
    FileFailure { offset, kind, cause: None }
}

/// The byte order that the first two bytes show: they hold the begin-of-run
/// marker in one order or the other.
pub open spec fn detect_endianness(bytes: Seq<u8>) -> Option<Endianness> {
    if !fits(bytes.len() as int, 0, 2) {
        None
    } else if u16_at(bytes, 0, Endianness::LittleEndian) == BOR_ID {
        Some(Endianness::LittleEndian)
    } else if u16_at(bytes, 0, Endianness::BigEndian) == BOR_ID {
        Some(Endianness::BigEndian)
    } else {
        None
    }
}

/// The offset behind the initial database dump, where the events start.
pub open spec fn events_start(bytes: Seq<u8>, endian: Endianness) -> int {
    16 + u32_at(bytes, 12, endian)
}

/// What keeps the first part of the buffer from being the start of a file:
/// the marker, the constant, the run number, the timestamp and the dump.
pub open spec fn initial_failure(bytes: Seq<u8>) -> Option<FileFailure> {
    let total = bytes.len() as int;
    let endian = detect_endianness(bytes)->Some_0;
    if detect_endianness(bytes) is None {
        Some(file_failure(0, TryFileViewFromSliceError::BadBorId))
    } else if !fits(total, 2, 2) || u16_at(bytes, 2, endian) != MAGIC {
        Some(file_failure(2, TryFileViewFromSliceError::BadBorMi))
    } else if !fits(total, 4, 4) {
        Some(file_failure(4, TryFileViewFromSliceError::IniOdbSizeMismatch))
    } else if !fits(total, 8, 4) {
        Some(file_failure(8, TryFileViewFromSliceError::IniOdbSizeMismatch))
    } else if !fits(total, 12, 4) {
        Some(file_failure(12, TryFileViewFromSliceError::IniOdbSizeMismatch))
    } else if !fits(total, 16, u32_at(bytes, 12, endian)) {
        Some(file_failure(16, TryFileViewFromSliceError::IniOdbSizeMismatch))
    } else {
        None
    }
}

/// What keeps the bytes from `at` on from being the end of a file whose run
/// number is `run_number`: the marker, the constant, the run number, the
/// timestamp, the dump, and nothing behind it.
pub open spec fn final_failure(bytes: Seq<u8>, at: int, endian: Endianness, run_number: int) -> Option<
    FileFailure,
> {
    let total = bytes.len() as int;
    let size = u32_at(bytes, at + 12, endian);
    if !fits(total, at, 2) || u16_at(bytes, at, endian) != EOR_ID {
        Some(
            FileFailure {
                offset: at,
                kind: TryFileViewFromSliceError::BadEorId,
                cause: Some(
                    BadEventSpec {
                        index: 0,
                        failure: parse_event(bytes, at, endian)->Err_0,
                    },
                ),
            },
        )
    } else if !fits(total, at + 2, 2) || u16_at(bytes, at + 2, endian) != MAGIC {
        Some(file_failure(at + 2, TryFileViewFromSliceError::BadEorMi))
    } else if !fits(total, at + 4, 4) {
        Some(file_failure(at + 4, TryFileViewFromSliceError::FinOdbSizeMismatch))
    } else if u32_at(bytes, at + 4, endian) != run_number {
        Some(file_failure(at + 4, TryFileViewFromSliceError::RunNumberMismatch))
    } else if !fits(total, at + 8, 4) {
        Some(file_failure(at + 8, TryFileViewFromSliceError::FinOdbSizeMismatch))
    } else if !fits(total, at + 12, 4) {
        Some(file_failure(at + 12, TryFileViewFromSliceError::FinOdbSizeMismatch))
    } else if !fits(total, at + 16, size) {
        Some(file_failure(at + 16, TryFileViewFromSliceError::FinOdbSizeMismatch))
    } else if at + 16 + size != total {
        Some(file_failure(at + 16 + size, TryFileViewFromSliceError::TrailingBytes))
    } else {
        None
    }
}

/// The failure of the final part, with the index of the event that could not
/// be decoded set to the number of events in front of it.
pub open spec fn with_index(failure: FileFailure, index: int) -> FileFailure {
    match failure.cause {
        Some(bad) => FileFailure {
            offset: failure.offset,
            kind: failure.kind,
            cause: Some(BadEventSpec { index, failure: bad.failure }),
        },
        None => failure,
    }
}

/// The file that a whole buffer holds.
///
/// The byte order comes from the begin-of-run marker. Events are decoded
/// one behind the other for as long as the bytes can be decoded as an event;
/// where they cannot, the end-of-run marker must stand. The first field that
/// cannot be decoded gives the failure.
pub open spec fn parse_file(bytes: Seq<u8>) -> Result<FileSpec, FileFailure> {
    let endian = detect_endianness(bytes)->Some_0;
    let run_number = u32_at(bytes, 4, endian);
    let start = events_start(bytes, endian);
    let end = events_end(bytes, start, endian);
    let events = events_from(bytes, start, endian);
    if initial_failure(bytes) is Some {
        Err(initial_failure(bytes)->Some_0)
    } else if final_failure(bytes, end, endian, run_number) is Some {
        Err(with_index(final_failure(bytes, end, endian, run_number)->Some_0, events.len() as int))
    } else {
        Ok(
            FileSpec {
                endian,
                run_number,
                initial_timestamp: u32_at(bytes, 8, endian),
                initial_odb: bytes.subrange(16, start),
                events,
                final_timestamp: u32_at(bytes, end + 8, endian),
                final_odb: bytes.subrange(end + 16, bytes.len() as int),
            },
        )
    }
}

/// Whether an executable failure is the one of the model.
pub open spec fn file_error_matches(e: ParseError, failure: FileFailure) -> bool {
    &&& e.offset as int == failure.offset
    &&& e.kind == failure.kind
    &&& e.cause is Some == failure.cause is Some
    &&& e.cause is Some ==> {
        &&& e.cause->Some_0.index as int == failure.cause->Some_0.index
        &&& event_error_matches(e.cause->Some_0.error, failure.cause->Some_0.failure)
    }
}

/// Detects the byte order of a file from its begin-of-run marker.
pub fn endianness(bytes: &[u8]) -> (r: Option<Endianness>)
    ensures
        r == detect_endianness(bytes@),
{
    if !has_bytes(bytes, 0, 2) {
        None
    } else if read_u16(bytes, 0, Endianness::LittleEndian) == BOR_ID {
        Some(Endianness::LittleEndian)
    } else if read_u16(bytes, 0, Endianness::BigEndian) == BOR_ID {
        Some(Endianness::BigEndian)
    } else {
        None
    }
}

/// An immutable view to a MIDAS file.
///
/// A file is a collection of [`EventView`]s wrapped by two dumps of the Online
/// DataBase (ODB) at the beginning and end of the sub-run.
#[derive(Clone, Debug)]
pub struct FileView<'a> {
    endianness: Endianness,
    run_number: u32,
    initial_timestamp: u32,
    initial_odb: &'a [u8],
    event_views: Vec<EventView<'a>>,
    final_timestamp: u32,
    final_odb: &'a [u8],
}

impl<'a> View for FileView<'a> {
    type V = FileSpec;

    closed spec fn view(&self) -> FileSpec {
        FileSpec {
            endian: self.endianness,
            run_number: self.run_number as int,
            initial_timestamp: self.initial_timestamp as int,
            initial_odb: self.initial_odb@,
            events: event_specs(self.event_views@),
            final_timestamp: self.final_timestamp as int,
            final_odb: self.final_odb@,
        }
    }
}

/// A failure at `offset` without an event behind it.
fn fail(offset: usize, kind: TryFileViewFromSliceError) -> (r: ParseError)
    ensures
        r == (ParseError { offset, kind, cause: None }),
{
    ParseError { offset, kind, cause: None }
}

/// Decodes the file that a whole buffer holds.
pub fn file_view<'a>(bytes: &'a [u8]) -> (r: Result<FileView<'a>, ParseError>)
    ensures
        r is Ok == parse_file(bytes@) is Ok,
        r is Ok ==> r->Ok_0@ == parse_file(bytes@)->Ok_0,
        r is Err ==> file_error_matches(r->Err_0, parse_file(bytes@)->Err_0),
{
    let endian = match endianness(bytes) {
        Some(endian) => endian,
        None => {
            return Err(fail(0, TryFileViewFromSliceError::BadBorId));
        },
    };
    if !has_bytes(bytes, 2, 2) || read_u16(bytes, 2, endian) != MAGIC {
        return Err(fail(2, TryFileViewFromSliceError::BadBorMi));
    }
    if !has_bytes(bytes, 4, 4) {
        return Err(fail(4, TryFileViewFromSliceError::IniOdbSizeMismatch));
    }
    let run_number = read_u32(bytes, 4, endian);
    if !has_bytes(bytes, 8, 4) {
        return Err(fail(8, TryFileViewFromSliceError::IniOdbSizeMismatch));
    }
    let initial_timestamp = read_u32(bytes, 8, endian);
    if !has_bytes(bytes, 12, 4) {
        return Err(fail(12, TryFileViewFromSliceError::IniOdbSizeMismatch));
    }
    let initial_size = read_u32(bytes, 12, endian) as usize;
    if !has_bytes(bytes, 16, initial_size) {
        return Err(fail(16, TryFileViewFromSliceError::IniOdbSizeMismatch));
    }
    let initial_odb = take(bytes, 16, initial_size);
    let start = 16 + initial_size;
    proof {
        lemma_events_end(bytes@, start as int, endian);
    }
    let (event_views, at, error) = EventViews::starting_at(bytes, start, endian).collect();
    if !has_bytes(bytes, at, 2) || read_u16(bytes, at, endian) != EOR_ID {
        return Err(
            ParseError {
                offset: at,
                kind: TryFileViewFromSliceError::BadEorId,
                cause: Some(BadEvent { index: event_views.len(), error }),
            },
        );
    }
    if !has_bytes(bytes, at + 2, 2) || read_u16(bytes, at + 2, endian) != MAGIC {
        return Err(fail(at + 2, TryFileViewFromSliceError::BadEorMi));
    }
    if !has_bytes(bytes, at + 4, 4) {
        return Err(fail(at + 4, TryFileViewFromSliceError::FinOdbSizeMismatch));
    }
    if read_u32(bytes, at + 4, endian) != run_number {
        return Err(fail(at + 4, TryFileViewFromSliceError::RunNumberMismatch));
    }
    if !has_bytes(bytes, at + 8, 4) {
        return Err(fail(at + 8, TryFileViewFromSliceError::FinOdbSizeMismatch));
    }
    let final_timestamp = read_u32(bytes, at + 8, endian);
    if !has_bytes(bytes, at + 12, 4) {
        return Err(fail(at + 12, TryFileViewFromSliceError::FinOdbSizeMismatch));
    }
    let final_size = read_u32(bytes, at + 12, endian) as usize;
    if !has_bytes(bytes, at + 16, final_size) {
        return Err(fail(at + 16, TryFileViewFromSliceError::FinOdbSizeMismatch));
    }
    if at + 16 + final_size != bytes.len() {
        return Err(fail(at + 16 + final_size, TryFileViewFromSliceError::TrailingBytes));
    }
    let final_odb = take(bytes, at + 16, final_size);
    Ok(
        FileView {
            endianness: endian,
            run_number,
            initial_timestamp,
            initial_odb,
            event_views,
            final_timestamp,
            final_odb,
        },
    )
}

/// The file that a buffer holds, or the kind of its failure.
pub open spec fn file_of_slice(bytes: Seq<u8>) -> Result<FileSpec, TryFileViewFromSliceError> {
    match parse_file(bytes) {
        Ok(file) => Ok(file),
        Err(failure) => Err(failure.kind),
    }
}

impl<'a> FileView<'a> {
    /// Create a native view to the underlying file from its representation as
    /// a byte slice.
    pub fn try_from_bytes(bytes: &'a [u8]) -> (r: Result<Self, ParseError>)
        ensures
            r is Ok == parse_file(bytes@) is Ok,
            r is Ok ==> r->Ok_0@ == parse_file(bytes@)->Ok_0,
            r is Err ==> file_error_matches(r->Err_0, parse_file(bytes@)->Err_0),
    {
        file_view(bytes)
    }

    /// Create a native view to the underlying file from its representation as
    /// a byte slice, and tell only the kind of a failure.
    pub fn try_from(buffer: &'a [u8]) -> (r: Result<Self, TryFileViewFromSliceError>)
        ensures
            r is Ok == file_of_slice(buffer@) is Ok,
            r is Ok ==> r->Ok_0@ == file_of_slice(buffer@)->Ok_0,
            r is Err ==> r->Err_0 == file_of_slice(buffer@)->Err_0,
    {
        match file_view(buffer) {
            Ok(file) => Ok(file),
            Err(e) => Err(e.kind),
        }
    }

    /// Returns the byte order of the file.
    pub fn endianness(&self) -> (r: Endianness)
        ensures
            r == self@.endian,
    {
        self.endianness
    }

    /// Returns the run number of the file.
    pub fn run_number(&self) -> (r: u32)
        ensures
            r as int == self@.run_number,
    {
        self.run_number
    }

    /// Returns the unix timestamp of the initial ODB dump.
    pub fn initial_timestamp(&self) -> (r: u32)
        ensures
            r as int == self@.initial_timestamp,
    {
        self.initial_timestamp
    }

    /// Returns the initial ODB dump.
    pub fn initial_odb(&self) -> (r: &'a [u8])
        ensures
            r@ == self@.initial_odb,
    {
        self.initial_odb
    }

    /// Returns the unix timestamp of the final ODB dump.
    pub fn final_timestamp(&self) -> (r: u32)
        ensures
            r as int == self@.final_timestamp,
    {
        self.final_timestamp
    }

    /// Returns the final ODB dump.
    pub fn final_odb(&self) -> (r: &'a [u8])
        ensures
            r@ == self@.final_odb,
    {
        self.final_odb
    }

    /// Returns the events of the file, in the order of the bytes.
    pub fn events(&self) -> (r: &[EventView<'a>])
        ensures
            event_specs(r@) == self@.events,
    {
        self.event_views.as_slice()
    }

    /// Returns an iterator over the events of the file.
    pub fn iter(&self) -> (r: std::slice::Iter<'_, EventView<'a>>)
        ensures
            r.remaining().len() == self@.events.len(),
            forall|i: int|
                0 <= i < r.remaining().len() ==> (#[trigger] r.remaining()[i])@ == self@.events[i],
    {
        broadcast use vstd::std_specs::slice::axiom_spec_slice_iter;

        self.event_views.as_slice().iter()
    }
}

impl<'a> IntoIterator for FileView<'a> {
    type Item = EventView<'a>;

    type IntoIter = std::vec::IntoIter<EventView<'a>>;

    fn into_iter(self) -> (r: std::vec::IntoIter<EventView<'a>>)
        ensures
            r.remaining().len() == self@.events.len(),
            forall|i: int|
                0 <= i < r.remaining().len() ==> (#[trigger] r.remaining()[i])@ == self@.events[i],
    {
        broadcast use vstd::std_specs::vec::axiom_spec_into_iter;

        self.event_views.into_iter()
    }
}

impl<'a, 'b> IntoIterator for &'b FileView<'a> {
    type Item = &'b EventView<'a>;

    type IntoIter = std::slice::Iter<'b, EventView<'a>>;

    fn into_iter(self) -> (r: std::slice::Iter<'b, EventView<'a>>)
        ensures
            r.remaining().len() == self@.events.len(),
            forall|i: int|
                0 <= i < r.remaining().len() ==> (#[trigger] r.remaining()[i])@ == self@.events[i],
    {
        broadcast use vstd::std_specs::slice::axiom_spec_slice_iter;

        self.event_views.as_slice().iter()
    }
}

/// The run number that the start of a buffer shows: the four bytes at
/// offset 4, in the byte order of the begin-of-run marker. The two bytes in
/// between must be there and are not looked at.
pub open spec fn unchecked_run_number(bytes: Seq<u8>) -> Result<int, FileFailure> {
    let total = bytes.len() as int;
    if detect_endianness(bytes) is None {
        Err(file_failure(0, TryFileViewFromSliceError::BadBorId))
    } else if !fits(total, 2, 2) {
        Err(file_failure(2, TryFileViewFromSliceError::IniOdbSizeMismatch))
    } else if !fits(total, 4, 4) {
        Err(file_failure(4, TryFileViewFromSliceError::IniOdbSizeMismatch))
    } else {
        Ok(u32_at(bytes, 4, detect_endianness(bytes)->Some_0))
    }
}

/// The initial timestamp that the start of a buffer shows: the four bytes at
/// offset 8, in the byte order of the begin-of-run marker. The six bytes in
/// between must be there and are not looked at.
pub open spec fn unchecked_initial_timestamp(bytes: Seq<u8>) -> Result<int, FileFailure> {
    let total = bytes.len() as int;
    if detect_endianness(bytes) is None {
        Err(file_failure(0, TryFileViewFromSliceError::BadBorId))
    } else if !fits(total, 2, 6) {
        Err(file_failure(2, TryFileViewFromSliceError::IniOdbSizeMismatch))
    } else if !fits(total, 8, 4) {
        Err(file_failure(8, TryFileViewFromSliceError::IniOdbSizeMismatch))
    } else {
        Ok(u32_at(bytes, 8, detect_endianness(bytes)->Some_0))
    }
}

/// Returns the run number assuming that the input slice has the correct MIDAS
/// file format.
///
/// This is useful for checking the run number of a file without having to
/// parse its entire contents. Only the begin-of-run marker is checked.
pub fn run_number_unchecked(bytes: &[u8]) -> (r: Result<u32, ParseError>)
    ensures
        r is Ok == unchecked_run_number(bytes@) is Ok,
        r is Ok ==> r->Ok_0 as int == unchecked_run_number(bytes@)->Ok_0,
        r is Err ==> file_error_matches(r->Err_0, unchecked_run_number(bytes@)->Err_0),
{
    let endian = match endianness(bytes) {
        Some(endian) => endian,
        None => {
            return Err(fail(0, TryFileViewFromSliceError::BadBorId));
        },
    };
    if !has_bytes(bytes, 2, 2) {
        return Err(fail(2, TryFileViewFromSliceError::IniOdbSizeMismatch));
    }
    if !has_bytes(bytes, 4, 4) {
        return Err(fail(4, TryFileViewFromSliceError::IniOdbSizeMismatch));
    }
    Ok(read_u32(bytes, 4, endian))
}

/// Returns the timestamp of the initial ODB dump assuming the correct MIDAS
/// file format.
///
/// This is useful for checking the initial timestamp of a file without having
/// to parse its entire contents. Only the begin-of-run marker is checked.
pub fn initial_timestamp_unchecked(bytes: &[u8]) -> (r: Result<u32, ParseError>)
    ensures
        r is Ok == unchecked_initial_timestamp(bytes@) is Ok,
        r is Ok ==> r->Ok_0 as int == unchecked_initial_timestamp(bytes@)->Ok_0,
        r is Err ==> file_error_matches(r->Err_0, unchecked_initial_timestamp(bytes@)->Err_0),
{
    let endian = match endianness(bytes) {
        Some(endian) => endian,
        None => {
            return Err(fail(0, TryFileViewFromSliceError::BadBorId));
        },
    };
    if !has_bytes(bytes, 2, 6) {
        return Err(fail(2, TryFileViewFromSliceError::IniOdbSizeMismatch));
    }
    if !has_bytes(bytes, 8, 4) {
        return Err(fail(8, TryFileViewFromSliceError::IniOdbSizeMismatch));
    }
    Ok(read_u32(bytes, 8, endian))
}

} // verus!
