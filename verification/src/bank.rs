//! Data banks: the three wire layouts and their decoder.

use vstd::prelude::*;
use crate::data_type::{data_type_of_code, element_stride, DataType};
use crate::name::BankName;
use crate::wire::{
    all_ascii_alphanumeric, fits, has_bytes, read_u16, read_u32, take, u16_at, u32_at, Endianness,
};

verus! {

/// The wire layout of the banks of one event.
#[derive(Clone, Copy, Debug, PartialEq, Eq, Structural)]
pub enum BankType {
    /// 16-bit type and size fields.
    B16,
    /// 32-bit type and size fields.
    B32,
    /// 32-bit type and size fields, then four reserved bytes.
    B32A,
}

/// The layout that an event's flags select, if they select one.
pub open spec fn bank_type_of_flags(flags: int) -> Option<BankType> {
    if flags == 1 {
        Some(BankType::B16)
    } else if flags == 17 {
        Some(BankType::B32)
    } else if flags == 49 {
        Some(BankType::B32A)
    } else {
        None
    }
}

/// The width in bytes of the type field, which is also that of the size
/// field.
pub open spec fn field_width(bank_type: BankType) -> int {
    match bank_type {
        BankType::B16 => 2,
        _ => 4,
    }
}

/// The number of bytes in front of a bank's data.
pub open spec fn header_length(bank_type: BankType) -> int {
    match bank_type {
        BankType::B16 => 8,
        BankType::B32 => 12,
        BankType::B32A => 16,
    }
}

/// The unsigned integer of a layout's field width at `pos`.
pub open spec fn field_at(bytes: Seq<u8>, pos: int, endian: Endianness, bank_type: BankType) -> int {
    match bank_type {
        BankType::B16 => u16_at(bytes, pos, endian),
        _ => u32_at(bytes, pos, endian),
    }
}

/// The number of bytes that round `len` up to a multiple of eight.
pub open spec fn padding_of(len: int) -> int {
    if len % 8 == 0 {
        0
    } else {
        8 - len % 8
    }
}

impl BankType {
    /// The layout that an event's flags select: 1, 17 and 49 are known.
    pub fn from_flags(flags: u32) -> (r: Option<BankType>)
        ensures
            r == bank_type_of_flags(flags as int),
    {
        if flags == 1 {
            Some(BankType::B16)
        } else if flags == 17 {
            Some(BankType::B32)
        } else if flags == 49 {
            Some(BankType::B32A)
        } else {
            None
        }
    }

    /// The number of bytes in front of a bank's data.
    pub fn header_length(&self) -> (r: usize)
        ensures
            r as int == header_length(*self),
    {
        match self {
            BankType::B16 => 8,
            BankType::B32 => 12,
            BankType::B32A => 16,
        }
    }

    /// The width in bytes of the type field and of the size field.
    pub fn field_width(&self) -> (r: usize)
        ensures
            r as int == field_width(*self),
    {
        match self {
            BankType::B16 => 2,
            _ => 4,
        }
    }
}

/// Why a byte slice is no data bank.
#[derive(Clone, Copy, Debug, PartialEq, Eq, Structural)]
pub enum TryBankViewFromSliceError {
    /// A byte of the name is no ASCII letter or digit.
    NonAsciiName,
    /// The type field holds no known code.
    UnknownDataType,
    /// The slice ends inside the bank, or goes on after it.
    SizeMismatch,
    /// The data is no whole number of elements.
    IncompleteData,
}

impl TryBankViewFromSliceError {
    /// A sentence that describes the error.
    pub fn message(&self) -> (r: &'static str)
        ensures
            r@ == match *self {
                TryBankViewFromSliceError::NonAsciiName => "non-ASCII alphanumeric bank name"@,
                TryBankViewFromSliceError::UnknownDataType => "unknown data type"@,
                TryBankViewFromSliceError::SizeMismatch => "size field and data slice mismatch"@,
                TryBankViewFromSliceError::IncompleteData => "corrupted/incomplete data"@,
            },
    {
        match self {
            TryBankViewFromSliceError::NonAsciiName => "non-ASCII alphanumeric bank name",
            TryBankViewFromSliceError::UnknownDataType => "unknown data type",
            TryBankViewFromSliceError::SizeMismatch => "size field and data slice mismatch",
            TryBankViewFromSliceError::IncompleteData => "corrupted/incomplete data",
        }
    }
}

/// A failed attempt to decode a bank inside a buffer: where it stopped and
/// why.
#[derive(Clone, Copy, Debug, PartialEq, Eq, Structural)]
pub struct TryBankViewFromBytesError {
    /// The offset in the buffer of the field that could not be decoded.
    pub offset: usize,
    /// What was wrong with it.
    pub kind: TryBankViewFromSliceError,
}

/// The name of the field that an error of a bank is about.
pub open spec fn bank_label(kind: TryBankViewFromSliceError) -> Seq<char> {
    match kind {
        TryBankViewFromSliceError::NonAsciiName => "bank name"@,
        TryBankViewFromSliceError::UnknownDataType => "data type"@,
        _ => "data slice"@,
    }
}

impl TryBankViewFromBytesError {
    /// The name of the field at which decoding stopped.
    pub fn label(&self) -> (r: &'static str)
        ensures
            r@ == bank_label(self.kind),
    {
        match self.kind {
            TryBankViewFromSliceError::NonAsciiName => "bank name",
            TryBankViewFromSliceError::UnknownDataType => "data type",
            _ => "data slice",
        }
    }
}

/// What a decoded bank holds.
pub struct BankSpec {
    /// The four bytes of the name.
    pub name: Seq<u8>,
    /// The type of the elements.
    pub data_type: DataType,
    /// The data, without header and padding.
    pub data: Seq<u8>,
}

/// A decoded bank and the offset of the first byte behind its data.
pub struct ParsedBank {
    /// The bank.
    pub bank: BankSpec,
    /// The offset of the first byte behind the data.
    pub next: int,
}

/// Where and why decoding a bank stops.
pub struct BankFailure {
    /// The offset of the field that could not be decoded.
    pub offset: int,
    /// What was wrong with it.
    pub kind: TryBankViewFromSliceError,
}

/// The bank that starts at `pos`, field by field: the name, the type code,
/// the size, the reserved bytes of the aligned layout, the data. The first
/// field that cannot be decoded gives the failure. Reserved bytes and
/// padding are never looked at.
pub open spec fn parse_bank(
    bytes: Seq<u8>,
    pos: int,
    endian: Endianness,
    bank_type: BankType,
) -> Result<ParsedBank, BankFailure> {
    let total = bytes.len() as int;
    let width = field_width(bank_type);
    let code_at = pos + 4;
    let size_at = code_at + width;
    let data_at = pos + header_length(bank_type);
    let code = field_at(bytes, code_at, endian, bank_type);
    let size = field_at(bytes, size_at, endian, bank_type);
    if !fits(total, pos, 4) {
        Err(BankFailure { offset: pos, kind: TryBankViewFromSliceError::SizeMismatch })
    } else if !all_ascii_alphanumeric(bytes.subrange(pos, pos + 4)) {
        Err(BankFailure { offset: pos, kind: TryBankViewFromSliceError::NonAsciiName })
    } else if !fits(total, code_at, width) {
        Err(BankFailure { offset: code_at, kind: TryBankViewFromSliceError::SizeMismatch })
    } else if data_type_of_code(code) is None {
        Err(BankFailure { offset: code_at, kind: TryBankViewFromSliceError::UnknownDataType })
    } else if !fits(total, size_at, data_at - size_at) {
        Err(BankFailure { offset: size_at, kind: TryBankViewFromSliceError::SizeMismatch })
    } else if !fits(total, data_at, size) {
        Err(BankFailure { offset: data_at, kind: TryBankViewFromSliceError::SizeMismatch })
    } else if size % (element_stride(data_type_of_code(code).unwrap()) as int) != 0 {
        Err(BankFailure { offset: size_at, kind: TryBankViewFromSliceError::IncompleteData })
    } else {
        Ok(
            ParsedBank {
                bank: BankSpec {
                    name: bytes.subrange(pos, pos + 4),
                    data_type: data_type_of_code(code).unwrap(),
                    data: bytes.subrange(data_at, data_at + size),
                },
                next: data_at + size,
            },
        )
    }
}

/// The bank that a whole slice holds: it starts at offset 0 and ends with
/// the slice, without padding.
pub open spec fn bank_of_slice(bytes: Seq<u8>, endian: Endianness, bank_type: BankType) -> Result<
    BankSpec,
    TryBankViewFromSliceError,
> {
    match parse_bank(bytes, 0, endian, bank_type) {
        Ok(parsed) => if parsed.next == bytes.len() {
            Ok(parsed.bank)
        } else {
            Err(TryBankViewFromSliceError::SizeMismatch)
        },
        Err(failure) => Err(failure.kind),
    }
}

/// Whether an executable result is the one that the model gives.
pub open spec fn bank_result_matches<'a>(
    r: Result<(RawBank<'a>, usize), TryBankViewFromBytesError>,
    model: Result<ParsedBank, BankFailure>,
) -> bool {
    match (r, model) {
        (Ok((raw, next)), Ok(parsed)) => raw@ == parsed.bank && next as int == parsed.next,
        (Err(e), Err(failure)) => e.offset as int == failure.offset && e.kind == failure.kind,
        _ => false,
    }
}

/// The fields of a decoded bank, whatever its layout was.
#[derive(Clone, Copy, Debug)]
pub struct RawBank<'a> {
    name: BankName,
    data_type: DataType,
    data: &'a [u8],
}

impl<'a> View for RawBank<'a> {
    type V = BankSpec;

    closed spec fn view(&self) -> BankSpec {
        BankSpec { name: self.name@, data_type: self.data_type, data: self.data@ }
    }
}

impl<'a> RawBank<'a> {
    #[verifier::type_invariant]
    closed spec fn well_formed(&self) -> bool {
        self.data@.len() % element_stride(self.data_type) == 0
    }

    /// The name of the bank.
    pub fn name(&self) -> (r: BankName)
        ensures
            r@ == self@.name,
    {
        self.name
    }

    /// The type of the elements.
    pub fn data_type(&self) -> (r: DataType)
        ensures
            r == self@.data_type,
    {
        self.data_type
    }

    /// The data: a whole number of elements.
    pub fn data(&self) -> (r: &'a [u8])
        ensures
            r@ == self@.data,
            r@.len() % element_stride(self@.data_type) == 0,
    {
        proof {
            use_type_invariant(self);
        }
        self.data
    }
}

/// Reads the unsigned integer of a layout's field width at `pos`.
fn read_field(bytes: &[u8], pos: usize, endian: Endianness, bank_type: BankType) -> (r: u32)
    requires
        fits(bytes@.len() as int, pos as int, field_width(bank_type)),
    ensures
        r as int == field_at(bytes@, pos as int, endian, bank_type),
{
    match bank_type {
        BankType::B16 => read_u16(bytes, pos, endian) as u32,
        _ => read_u32(bytes, pos, endian),
    }
}

/// Decodes the bank of the given layout that starts at `pos`.
///
/// On success the second component is the offset of the first byte behind the
/// bank's data; padding is left to the caller.
pub fn bank_view<'a>(bytes: &'a [u8], pos: usize, endian: Endianness, bank_type: BankType) -> (r:
    Result<(RawBank<'a>, usize), TryBankViewFromBytesError>)
    ensures
        bank_result_matches(r, parse_bank(bytes@, pos as int, endian, bank_type)),
{
    if !has_bytes(bytes, pos, 4) {
        return Err(
            TryBankViewFromBytesError { offset: pos, kind: TryBankViewFromSliceError::SizeMismatch },
        );
    }
    let name = match BankName::from_bytes_at(bytes, pos) {
        Some(name) => name,
        None => {
            return Err(
                TryBankViewFromBytesError {
                    offset: pos,
                    kind: TryBankViewFromSliceError::NonAsciiName,
                },
            );
        },
    };
    let width = bank_type.field_width();
    let code_at = pos + 4;
    if !has_bytes(bytes, code_at, width) {
        return Err(
            TryBankViewFromBytesError {
                offset: code_at,
                kind: TryBankViewFromSliceError::SizeMismatch,
            },
        );
    }
    let code = read_field(bytes, code_at, endian, bank_type);
    let data_type = match DataType::from_code(code as u128) {
        Ok(data_type) => data_type,
        Err(_) => {
            return Err(
                TryBankViewFromBytesError {
                    offset: code_at,
                    kind: TryBankViewFromSliceError::UnknownDataType,
                },
            );
        },
    };
    let size_at = code_at + width;
    let rest = bank_type.header_length() - 4 - width;
    if !has_bytes(bytes, size_at, rest) {
        return Err(
            TryBankViewFromBytesError {
                offset: size_at,
                kind: TryBankViewFromSliceError::SizeMismatch,
            },
        );
    }
    let size = read_field(bytes, size_at, endian, bank_type) as usize;
    let data_at = size_at + rest;
    if !has_bytes(bytes, data_at, size) {
        return Err(
            TryBankViewFromBytesError {
                offset: data_at,
                kind: TryBankViewFromSliceError::SizeMismatch,
            },
        );
    }
    if size % data_type.stride() != 0 {
        return Err(
            TryBankViewFromBytesError {
                offset: size_at,
                kind: TryBankViewFromSliceError::IncompleteData,
            },
        );
    }
    let data = take(bytes, data_at, size);
    Ok((RawBank { name, data_type, data }, data_at + size))
}

/// The bank that starts at `pos` together with the padding behind it: `next`
/// is the offset of the first byte behind the padding. A buffer that ends
/// inside the padding holds no padded bank.
pub open spec fn parse_padded_bank(
    bytes: Seq<u8>,
    pos: int,
    endian: Endianness,
    bank_type: BankType,
) -> Result<ParsedBank, BankFailure> {
    match parse_bank(bytes, pos, endian, bank_type) {
        Ok(parsed) => {
            let padding = padding_of(parsed.bank.data.len() as int);
            if fits(bytes.len() as int, parsed.next, padding) {
                Ok(ParsedBank { bank: parsed.bank, next: parsed.next + padding })
            } else {
                Err(
                    BankFailure {
                        offset: parsed.next,
                        kind: TryBankViewFromSliceError::SizeMismatch,
                    },
                )
            }
        },
        Err(failure) => Err(failure),
    }
}

/// The padded banks that follow one another from `pos` on, up to the first
/// offset at which none can be decoded.
pub open spec fn banks_from(bytes: Seq<u8>, pos: int, endian: Endianness, bank_type: BankType) -> Seq<
    BankSpec,
>
    decreases bytes.len() - pos,
{
    match parse_padded_bank(bytes, pos, endian, bank_type) {
        Ok(parsed) => if pos < parsed.next {
            seq![parsed.bank] + banks_from(bytes, parsed.next, endian, bank_type)
        } else {
            Seq::empty()
        },
        Err(_) => Seq::empty(),
    }
}

/// The first offset from `pos` on at which no padded bank can be decoded.
pub open spec fn banks_end(bytes: Seq<u8>, pos: int, endian: Endianness, bank_type: BankType) -> int
    decreases bytes.len() - pos,
{
    match parse_padded_bank(bytes, pos, endian, bank_type) {
        Ok(parsed) => if pos < parsed.next {
            banks_end(bytes, parsed.next, endian, bank_type)
        } else {
            pos
        },
        Err(_) => pos,
    }
}

/// A decoded bank lies inside the buffer and is at least as long as its
/// header, and so is a padded bank.
pub proof fn lemma_bank_advances(bytes: Seq<u8>, pos: int, endian: Endianness, bank_type: BankType)
    ensures
        parse_bank(bytes, pos, endian, bank_type) is Ok ==> {
            let parsed = parse_bank(bytes, pos, endian, bank_type)->Ok_0;
            &&& 0 <= pos
            &&& parsed.next == pos + header_length(bank_type) + parsed.bank.data.len()
            &&& parsed.next <= bytes.len()
            &&& parsed.bank.name.len() == 4
        },
        parse_padded_bank(bytes, pos, endian, bank_type) is Ok ==> {
            let parsed = parse_padded_bank(bytes, pos, endian, bank_type)->Ok_0;
            &&& 0 <= pos
            &&& pos + header_length(bank_type) <= parsed.next <= bytes.len()
            &&& parsed.bank == parse_bank(bytes, pos, endian, bank_type)->Ok_0.bank
        },
{
}

} // verus!
