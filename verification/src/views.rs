//! Views of single data banks, one type for each wire layout.

use vstd::prelude::*;
use vstd::std_specs::iter::IteratorSpec;
use crate::bank::{
    bank_of_slice, bank_view, padding_of, parse_bank, parse_padded_bank, BankSpec, BankType,
    RawBank, TryBankViewFromBytesError, TryBankViewFromSliceError,
};
use crate::data_type::{element_stride, DataType};
use crate::name::BankName;
use crate::wire::{has_bytes, take, Endianness};

verus! {

/// Decodes the bank that a whole slice holds, without padding.
pub fn bank_from_slice<'a>(bytes: &'a [u8], endian: Endianness, bank_type: BankType) -> (r: Result<
    RawBank<'a>,
    TryBankViewFromSliceError,
>)
    ensures
        r is Ok == bank_of_slice(bytes@, endian, bank_type) is Ok,
        r is Ok ==> r->Ok_0@ == bank_of_slice(bytes@, endian, bank_type)->Ok_0,
        r is Err ==> r->Err_0 == bank_of_slice(bytes@, endian, bank_type)->Err_0,
{
    match bank_view(bytes, 0, endian, bank_type) {
        Ok((raw, next)) => if next == bytes.len() {
            Ok(raw)
        } else {
            Err(TryBankViewFromSliceError::SizeMismatch)
        },
        Err(e) => Err(e.kind),
    }
}

/// Tells what keeps a whole slice from being a bank of the given layout, or
/// `None` if it is one.
pub fn error_in_bank_view(bytes: &[u8], endian: Endianness, bank_type: BankType) -> (r: Option<
    TryBankViewFromSliceError,
>)
    ensures
        r is None == bank_of_slice(bytes@, endian, bank_type) is Ok,
        r is Some ==> r->Some_0 == bank_of_slice(bytes@, endian, bank_type)->Err_0,
{
    match bank_from_slice(bytes, endian, bank_type) {
        Ok(_) => None,
        Err(e) => Some(e),
    }
}

/// The number of bytes that pad `len` bytes of data to a multiple of eight.
pub fn padding_for(len: usize) -> (r: usize)
    ensures
        r as int == padding_of(len as int),
        0 <= r <= 7,
        (len + r) % 8 == 0,
{
    let remainder = len % 8;
    if remainder != 0 {
        8 - remainder
    } else {
        0
    }
}

/// The elements of a bank's data: consecutive pieces of `stride` bytes.
pub open spec fn chunks_of(data: Seq<u8>, stride: int) -> Seq<Seq<u8>>
    recommends
        stride > 0,
{
    Seq::new((data.len() as int / stride) as nat, |i: int| data.subrange(i * stride, i * stride + stride))
}

/// Cuts the data of a bank into its elements.
pub fn chunks<'a>(data: &'a [u8], stride: usize) -> (r: Vec<&'a [u8]>)
    requires
        stride > 0,
    ensures
        r@.len() == data@.len() / (stride as nat),
        forall|i: int|
            0 <= i < r@.len() ==> (#[trigger] r@[i])@ == chunks_of(data@, stride as int)[i],
{
    let mut out: Vec<&'a [u8]> = Vec::new();
    let mut offset: usize = 0;
    let count = data.len() / stride;
    let mut i: usize = 0;
    assert(count * stride <= data.len()) by (nonlinear_arith)
        requires
            count == data.len() / stride,
            stride > 0,
    ;
    while i < count
        invariant
            stride > 0,
            count == data@.len() / (stride as nat),
            count * stride <= data.len(),
            i <= count,
            offset == i * stride,
            out@.len() == i,
            forall|j: int|
                0 <= j < i ==> (#[trigger] out@[j])@ == chunks_of(data@, stride as int)[j],
        decreases count - i,
    {
        assert(i * stride + stride <= count * stride) by (nonlinear_arith)
            requires
                i < count,
                stride > 0,
        ;
        assert(offset + stride <= data.len());
        let piece = take(data, offset, stride);
        assert(i < data@.len() as int / (stride as int));
        out.push(piece);
        assert((i + 1) * stride == i * stride + stride) by (nonlinear_arith);
        offset = offset + stride;
        i = i + 1;
    }
    out
}

/// An immutable view to a 16-bit data bank.
///
/// The name (4 bytes), the data type (2 bytes) and the data size `n` (2 bytes)
/// are followed by `n` bytes of data.
#[derive(Clone, Copy, Debug)]
pub struct Bank16View<'a> {
    raw: RawBank<'a>,
}

impl<'a> View for Bank16View<'a> {
    type V = BankSpec;

    closed spec fn view(&self) -> BankSpec {
        self.raw@
    }
}

/// Decodes the 16-bit bank that starts at `pos`; on success the second
/// component is the offset of the first byte behind its data.
pub fn bank_16_view<'a>(bytes: &'a [u8], pos: usize, endian: Endianness) -> (r: Result<
    (Bank16View<'a>, usize),
    TryBankViewFromBytesError,
>)
    ensures
        r is Ok == parse_bank(bytes@, pos as int, endian, BankType::B16) is Ok,
        r is Ok ==> r->Ok_0.0@ == parse_bank(bytes@, pos as int, endian, BankType::B16)->Ok_0.bank
            && r->Ok_0.1 as int == parse_bank(bytes@, pos as int, endian, BankType::B16)->Ok_0.next,
        r is Err ==> r->Err_0.offset as int == parse_bank(
            bytes@,
            pos as int,
            endian,
            BankType::B16,
        )->Err_0.offset && r->Err_0.kind == parse_bank(
            bytes@,
            pos as int,
            endian,
            BankType::B16,
        )->Err_0.kind,
{
    match bank_view(bytes, pos, endian, BankType::B16) {
        Ok((raw, next)) => Ok((Bank16View { raw }, next)),
        Err(e) => Err(e),
    }
}

impl<'a> Bank16View<'a> {
    /// Create a native view to the underlying data bank from its
    /// representation as a byte slice in little endian. The slice holds the
    /// header and the data, and no padding.
    pub fn try_from_le_bytes(bytes: &'a [u8]) -> (r: Result<Self, TryBankViewFromSliceError>)
        ensures
            r is Ok == bank_of_slice(bytes@, Endianness::LittleEndian, BankType::B16) is Ok,
            r is Ok ==> r->Ok_0@ == bank_of_slice(
                bytes@,
                Endianness::LittleEndian,
                BankType::B16,
            )->Ok_0,
            r is Err ==> r->Err_0 == bank_of_slice(
                bytes@,
                Endianness::LittleEndian,
                BankType::B16,
            )->Err_0,
    {
        match bank_from_slice(bytes, Endianness::LittleEndian, BankType::B16) {
            Ok(raw) => Ok(Bank16View { raw }),
            Err(e) => Err(e),
        }
    }

    /// Create a native view to the underlying data bank from its
    /// representation as a byte slice in big endian. The slice holds the
    /// header and the data, and no padding.
    pub fn try_from_be_bytes(bytes: &'a [u8]) -> (r: Result<Self, TryBankViewFromSliceError>)
        ensures
            r is Ok == bank_of_slice(bytes@, Endianness::BigEndian, BankType::B16) is Ok,
            r is Ok ==> r->Ok_0@ == bank_of_slice(
                bytes@,
                Endianness::BigEndian,
                BankType::B16,
            )->Ok_0,
            r is Err ==> r->Err_0 == bank_of_slice(
                bytes@,
                Endianness::BigEndian,
                BankType::B16,
            )->Err_0,
    {
        match bank_from_slice(bytes, Endianness::BigEndian, BankType::B16) {
            Ok(raw) => Ok(Bank16View { raw }),
            Err(e) => Err(e),
        }
    }

    /// Return the name of the data bank. This is guaranteed to be 4 ASCII
    /// alphanumeric characters.
    pub fn name(&self) -> (r: BankName)
        ensures
            r@ == self@.name,
    {
        self.raw.name()
    }

    /// Return the data type of the data bank.
    pub fn data_type(&self) -> (r: DataType)
        ensures
            r == self@.data_type,
    {
        self.raw.data_type()
    }

    /// Return the raw data of the data bank. This does not include the header
    /// nor any padding bytes. Its length is a whole number of elements.
    pub fn data_slice(&self) -> (r: &'a [u8])
        ensures
            r@ == self@.data,
            r@.len() % element_stride(self@.data_type) == 0,
    {
        self.raw.data()
    }

    /// In a MIDAS file, data banks are padded to a multiple of 8 bytes. This
    /// method returns the number of padding bytes that would be required to
    /// make the data area of this data bank a multiple of 8 bytes.
    pub fn required_padding(&self) -> (r: usize)
        ensures
            r as int == padding_of(self@.data.len() as int),
            0 <= r <= 7,
            (self@.data.len() + r) % 8 == 0,
    {
        padding_for(self.raw.data().len())
    }

    /// The number of padding bytes behind the data of this bank in a file.
    pub fn padding(&self) -> (r: usize)
        ensures
            r as int == padding_of(self@.data.len() as int),
            0 <= r <= 7,
            (self@.data.len() + r) % 8 == 0,
    {
        self.required_padding()
    }

    /// The elements of the data, each a slice of the size of the data type;
    /// single bytes where the type has no fixed size.
    pub fn elements(&self) -> (r: Vec<&'a [u8]>)
        ensures
            r@.len() == self@.data.len() / element_stride(self@.data_type),
            forall|i: int|
                0 <= i < r@.len() ==> (#[trigger] r@[i])@ == chunks_of(
                    self@.data,
                    element_stride(self@.data_type) as int,
                )[i],
    {
        chunks(self.raw.data(), self.raw.data_type().stride())
    }
}

impl<'a> IntoIterator for Bank16View<'a> {
    type Item = &'a [u8];

    type IntoIter = std::vec::IntoIter<&'a [u8]>;

    fn into_iter(self) -> (r: std::vec::IntoIter<&'a [u8]>)
        ensures
            r.remaining().len() == self@.data.len() / element_stride(self@.data_type),
            forall|i: int|
                0 <= i < r.remaining().len() ==> (#[trigger] r.remaining()[i])@ == chunks_of(
                    self@.data,
                    element_stride(self@.data_type) as int,
                )[i],
    {
        broadcast use vstd::std_specs::vec::axiom_spec_into_iter;

        self.elements().into_iter()
    }
}

impl<'a, 'b> IntoIterator for &'b Bank16View<'a> {
    type Item = &'a [u8];

    type IntoIter = std::vec::IntoIter<&'a [u8]>;

    fn into_iter(self) -> (r: std::vec::IntoIter<&'a [u8]>)
        ensures
            r.remaining().len() == self@.data.len() / element_stride(self@.data_type),
            forall|i: int|
                0 <= i < r.remaining().len() ==> (#[trigger] r.remaining()[i])@ == chunks_of(
                    self@.data,
                    element_stride(self@.data_type) as int,
                )[i],
    {
        broadcast use vstd::std_specs::vec::axiom_spec_into_iter;

        self.elements().into_iter()
    }
}

/// An immutable view to a 32-bit data bank.
///
/// The name (4 bytes), the data type (4 bytes) and the data size `n` (4 bytes)
/// are followed by `n` bytes of data.
#[derive(Clone, Copy, Debug)]
pub struct Bank32View<'a> {
    raw: RawBank<'a>,
}

impl<'a> View for Bank32View<'a> {
    type V = BankSpec;

    closed spec fn view(&self) -> BankSpec {
        self.raw@
    }
}

/// Decodes the 32-bit bank that starts at `pos`; on success the second
/// component is the offset of the first byte behind its data.
pub fn bank_32_view<'a>(bytes: &'a [u8], pos: usize, endian: Endianness) -> (r: Result<
    (Bank32View<'a>, usize),
    TryBankViewFromBytesError,
>)
    ensures
        r is Ok == parse_bank(bytes@, pos as int, endian, BankType::B32) is Ok,
        r is Ok ==> r->Ok_0.0@ == parse_bank(bytes@, pos as int, endian, BankType::B32)->Ok_0.bank
            && r->Ok_0.1 as int == parse_bank(bytes@, pos as int, endian, BankType::B32)->Ok_0.next,
        r is Err ==> r->Err_0.offset as int == parse_bank(
            bytes@,
            pos as int,
            endian,
            BankType::B32,
        )->Err_0.offset && r->Err_0.kind == parse_bank(
            bytes@,
            pos as int,
            endian,
            BankType::B32,
        )->Err_0.kind,
{
    match bank_view(bytes, pos, endian, BankType::B32) {
        Ok((raw, next)) => Ok((Bank32View { raw }, next)),
        Err(e) => Err(e),
    }
}

impl<'a> Bank32View<'a> {
    /// Create a native view to the underlying data bank from its
    /// representation as a byte slice in little endian. The slice holds the
    /// header and the data, and no padding.
    pub fn try_from_le_bytes(bytes: &'a [u8]) -> (r: Result<Self, TryBankViewFromSliceError>)
        ensures
            r is Ok == bank_of_slice(bytes@, Endianness::LittleEndian, BankType::B32) is Ok,
            r is Ok ==> r->Ok_0@ == bank_of_slice(
                bytes@,
                Endianness::LittleEndian,
                BankType::B32,
            )->Ok_0,
            r is Err ==> r->Err_0 == bank_of_slice(
                bytes@,
                Endianness::LittleEndian,
                BankType::B32,
            )->Err_0,
    {
        match bank_from_slice(bytes, Endianness::LittleEndian, BankType::B32) {
            Ok(raw) => Ok(Bank32View { raw }),
            Err(e) => Err(e),
        }
    }

    /// Create a native view to the underlying data bank from its
    /// representation as a byte slice in big endian. The slice holds the
    /// header and the data, and no padding.
    pub fn try_from_be_bytes(bytes: &'a [u8]) -> (r: Result<Self, TryBankViewFromSliceError>)
        ensures
            r is Ok == bank_of_slice(bytes@, Endianness::BigEndian, BankType::B32) is Ok,
            r is Ok ==> r->Ok_0@ == bank_of_slice(
                bytes@,
                Endianness::BigEndian,
                BankType::B32,
            )->Ok_0,
            r is Err ==> r->Err_0 == bank_of_slice(
                bytes@,
                Endianness::BigEndian,
                BankType::B32,
            )->Err_0,
    {
        match bank_from_slice(bytes, Endianness::BigEndian, BankType::B32) {
            Ok(raw) => Ok(Bank32View { raw }),
            Err(e) => Err(e),
        }
    }

    /// Return the name of the data bank. This is guaranteed to be 4 ASCII
    /// alphanumeric characters.
    pub fn name(&self) -> (r: BankName)
        ensures
            r@ == self@.name,
    {
        self.raw.name()
    }

    /// Return the data type of the data bank.
    pub fn data_type(&self) -> (r: DataType)
        ensures
            r == self@.data_type,
    {
        self.raw.data_type()
    }

    /// Return the raw data of the data bank. This does not include the header
    /// nor any padding bytes. Its length is a whole number of elements.
    pub fn data_slice(&self) -> (r: &'a [u8])
        ensures
            r@ == self@.data,
            r@.len() % element_stride(self@.data_type) == 0,
    {
        self.raw.data()
    }

    /// In a MIDAS file, data banks are padded to a multiple of 8 bytes. This
    /// method returns the number of padding bytes that would be required to
    /// make the data area of this data bank a multiple of 8 bytes.
    pub fn required_padding(&self) -> (r: usize)
        ensures
            r as int == padding_of(self@.data.len() as int),
            0 <= r <= 7,
            (self@.data.len() + r) % 8 == 0,
    {
        padding_for(self.raw.data().len())
    }

    /// The number of padding bytes behind the data of this bank in a file.
    pub fn padding(&self) -> (r: usize)
        ensures
            r as int == padding_of(self@.data.len() as int),
            0 <= r <= 7,
            (self@.data.len() + r) % 8 == 0,
    {
        self.required_padding()
    }

    /// The elements of the data, each a slice of the size of the data type;
    /// single bytes where the type has no fixed size.
    pub fn elements(&self) -> (r: Vec<&'a [u8]>)
        ensures
            r@.len() == self@.data.len() / element_stride(self@.data_type),
            forall|i: int|
                0 <= i < r@.len() ==> (#[trigger] r@[i])@ == chunks_of(
                    self@.data,
                    element_stride(self@.data_type) as int,
                )[i],
    {
        chunks(self.raw.data(), self.raw.data_type().stride())
    }
}

impl<'a> IntoIterator for Bank32View<'a> {
    type Item = &'a [u8];

    type IntoIter = std::vec::IntoIter<&'a [u8]>;

    fn into_iter(self) -> (r: std::vec::IntoIter<&'a [u8]>)
        ensures
            r.remaining().len() == self@.data.len() / element_stride(self@.data_type),
            forall|i: int|
                0 <= i < r.remaining().len() ==> (#[trigger] r.remaining()[i])@ == chunks_of(
                    self@.data,
                    element_stride(self@.data_type) as int,
                )[i],
    {
        broadcast use vstd::std_specs::vec::axiom_spec_into_iter;

        self.elements().into_iter()
    }
}

impl<'a, 'b> IntoIterator for &'b Bank32View<'a> {
    type Item = &'a [u8];

    type IntoIter = std::vec::IntoIter<&'a [u8]>;

    fn into_iter(self) -> (r: std::vec::IntoIter<&'a [u8]>)
        ensures
            r.remaining().len() == self@.data.len() / element_stride(self@.data_type),
            forall|i: int|
                0 <= i < r.remaining().len() ==> (#[trigger] r.remaining()[i])@ == chunks_of(
                    self@.data,
                    element_stride(self@.data_type) as int,
                )[i],
    {
        broadcast use vstd::std_specs::vec::axiom_spec_into_iter;

        self.elements().into_iter()
    }
}

/// An immutable view to a 32-bit, 64-bit aligned, data bank.
///
/// The name (4 bytes), the data type (4 bytes), the data size `n` (4 bytes) and
/// 4 reserved bytes are followed by `n` bytes of data.
#[derive(Clone, Copy, Debug)]
pub struct Bank32AView<'a> {
    raw: RawBank<'a>,
}

impl<'a> View for Bank32AView<'a> {
    type V = BankSpec;

    closed spec fn view(&self) -> BankSpec {
        self.raw@
    }
}

/// Decodes the 32-bit, 64-bit aligned, bank that starts at `pos`; on success the second
/// component is the offset of the first byte behind its data.
pub fn bank_32a_view<'a>(bytes: &'a [u8], pos: usize, endian: Endianness) -> (r: Result<
    (Bank32AView<'a>, usize),
    TryBankViewFromBytesError,
>)
    ensures
        r is Ok == parse_bank(bytes@, pos as int, endian, BankType::B32A) is Ok,
        r is Ok ==> r->Ok_0.0@ == parse_bank(bytes@, pos as int, endian, BankType::B32A)->Ok_0.bank
            && r->Ok_0.1 as int == parse_bank(bytes@, pos as int, endian, BankType::B32A)->Ok_0.next,
        r is Err ==> r->Err_0.offset as int == parse_bank(
            bytes@,
            pos as int,
            endian,
            BankType::B32A,
        )->Err_0.offset && r->Err_0.kind == parse_bank(
            bytes@,
            pos as int,
            endian,
            BankType::B32A,
        )->Err_0.kind,
{
    match bank_view(bytes, pos, endian, BankType::B32A) {
        Ok((raw, next)) => Ok((Bank32AView { raw }, next)),
        Err(e) => Err(e),
    }
}

impl<'a> Bank32AView<'a> {
    /// Create a native view to the underlying data bank from its
    /// representation as a byte slice in little endian. The slice holds the
    /// header and the data, and no padding.
    pub fn try_from_le_bytes(bytes: &'a [u8]) -> (r: Result<Self, TryBankViewFromSliceError>)
        ensures
            r is Ok == bank_of_slice(bytes@, Endianness::LittleEndian, BankType::B32A) is Ok,
            r is Ok ==> r->Ok_0@ == bank_of_slice(
                bytes@,
                Endianness::LittleEndian,
                BankType::B32A,
            )->Ok_0,
            r is Err ==> r->Err_0 == bank_of_slice(
                bytes@,
                Endianness::LittleEndian,
                BankType::B32A,
            )->Err_0,
    {
        match bank_from_slice(bytes, Endianness::LittleEndian, BankType::B32A) {
            Ok(raw) => Ok(Bank32AView { raw }),
            Err(e) => Err(e),
        }
    }

    /// Create a native view to the underlying data bank from its
    /// representation as a byte slice in big endian. The slice holds the
    /// header and the data, and no padding.
    pub fn try_from_be_bytes(bytes: &'a [u8]) -> (r: Result<Self, TryBankViewFromSliceError>)
        ensures
            r is Ok == bank_of_slice(bytes@, Endianness::BigEndian, BankType::B32A) is Ok,
            r is Ok ==> r->Ok_0@ == bank_of_slice(
                bytes@,
                Endianness::BigEndian,
                BankType::B32A,
            )->Ok_0,
            r is Err ==> r->Err_0 == bank_of_slice(
                bytes@,
                Endianness::BigEndian,
                BankType::B32A,
            )->Err_0,
    {
        match bank_from_slice(bytes, Endianness::BigEndian, BankType::B32A) {
            Ok(raw) => Ok(Bank32AView { raw }),
            Err(e) => Err(e),
        }
    }

    /// Return the name of the data bank. This is guaranteed to be 4 ASCII
    /// alphanumeric characters.
    pub fn name(&self) -> (r: BankName)
        ensures
            r@ == self@.name,
    {
        self.raw.name()
    }

    /// Return the data type of the data bank.
    pub fn data_type(&self) -> (r: DataType)
        ensures
            r == self@.data_type,
    {
        self.raw.data_type()
    }

    /// Return the raw data of the data bank. This does not include the header
    /// nor any padding bytes. Its length is a whole number of elements.
    pub fn data_slice(&self) -> (r: &'a [u8])
        ensures
            r@ == self@.data,
            r@.len() % element_stride(self@.data_type) == 0,
    {
        self.raw.data()
    }

    /// In a MIDAS file, data banks are padded to a multiple of 8 bytes. This
    /// method returns the number of padding bytes that would be required to
    /// make the data area of this data bank a multiple of 8 bytes.
    pub fn required_padding(&self) -> (r: usize)
        ensures
            r as int == padding_of(self@.data.len() as int),
            0 <= r <= 7,
            (self@.data.len() + r) % 8 == 0,
    {
        padding_for(self.raw.data().len())
    }

    /// The number of padding bytes behind the data of this bank in a file.
    pub fn padding(&self) -> (r: usize)
        ensures
            r as int == padding_of(self@.data.len() as int),
            0 <= r <= 7,
            (self@.data.len() + r) % 8 == 0,
    {
        self.required_padding()
    }

    /// The elements of the data, each a slice of the size of the data type;
    /// single bytes where the type has no fixed size.
    pub fn elements(&self) -> (r: Vec<&'a [u8]>)
        ensures
            r@.len() == self@.data.len() / element_stride(self@.data_type),
            forall|i: int|
                0 <= i < r@.len() ==> (#[trigger] r@[i])@ == chunks_of(
                    self@.data,
                    element_stride(self@.data_type) as int,
                )[i],
    {
        chunks(self.raw.data(), self.raw.data_type().stride())
    }
}

impl<'a> IntoIterator for Bank32AView<'a> {
    type Item = &'a [u8];

    type IntoIter = std::vec::IntoIter<&'a [u8]>;

    fn into_iter(self) -> (r: std::vec::IntoIter<&'a [u8]>)
        ensures
            r.remaining().len() == self@.data.len() / element_stride(self@.data_type),
            forall|i: int|
                0 <= i < r.remaining().len() ==> (#[trigger] r.remaining()[i])@ == chunks_of(
                    self@.data,
                    element_stride(self@.data_type) as int,
                )[i],
    {
        broadcast use vstd::std_specs::vec::axiom_spec_into_iter;

        self.elements().into_iter()
    }
}

impl<'a, 'b> IntoIterator for &'b Bank32AView<'a> {
    type Item = &'a [u8];

    type IntoIter = std::vec::IntoIter<&'a [u8]>;

    fn into_iter(self) -> (r: std::vec::IntoIter<&'a [u8]>)
        ensures
            r.remaining().len() == self@.data.len() / element_stride(self@.data_type),
            forall|i: int|
                0 <= i < r.remaining().len() ==> (#[trigger] r.remaining()[i])@ == chunks_of(
                    self@.data,
                    element_stride(self@.data_type) as int,
                )[i],
    {
        broadcast use vstd::std_specs::vec::axiom_spec_into_iter;

        self.elements().into_iter()
    }
}

/// An immutable view to a data bank.
///
/// This enum can contain either a [`Bank16View`], a [`Bank32View`], or a
/// [`Bank32AView`].
#[derive(Clone, Copy, Debug)]
pub enum BankView<'a> {
    /// A 16-bit bank.
    B16(Bank16View<'a>),
    /// A 32-bit bank.
    B32(Bank32View<'a>),
    /// A 32-bit bank 64-bit aligned.
    B32A(Bank32AView<'a>),
}

impl<'a> View for BankView<'a> {
    type V = BankSpec;

    open spec fn view(&self) -> BankSpec {
        match *self {
            BankView::B16(bank) => bank@,
            BankView::B32(bank) => bank@,
            BankView::B32A(bank) => bank@,
        }
    }
}

impl<'a> BankView<'a> {
    /// The wire layout that the bank was decoded from.
    pub open spec fn bank_type(&self) -> BankType {
        match *self {
            BankView::B16(_) => BankType::B16,
            BankView::B32(_) => BankType::B32,
            BankView::B32A(_) => BankType::B32A,
        }
    }

    /// Return the name of the data bank. This is guaranteed to be 4 ASCII
    /// alphanumeric characters.
    pub fn name(&self) -> (r: BankName)
        ensures
            r@ == self@.name,
    {
        match self {
            BankView::B16(bank) => bank.name(),
            BankView::B32(bank) => bank.name(),
            BankView::B32A(bank) => bank.name(),
        }
    }

    /// Return the data type of the data bank.
    pub fn data_type(&self) -> (r: DataType)
        ensures
            r == self@.data_type,
    {
        match self {
            BankView::B16(bank) => bank.data_type(),
            BankView::B32(bank) => bank.data_type(),
            BankView::B32A(bank) => bank.data_type(),
        }
    }

    /// Return the raw data of the data bank. This does not include the header
    /// nor any padding bytes. Its length is a whole number of elements.
    pub fn data_slice(&self) -> (r: &'a [u8])
        ensures
            r@ == self@.data,
            r@.len() % element_stride(self@.data_type) == 0,
    {
        match self {
            BankView::B16(bank) => bank.data_slice(),
            BankView::B32(bank) => bank.data_slice(),
            BankView::B32A(bank) => bank.data_slice(),
        }
    }

    /// Returns the data stored in the data bank.
    pub fn data(&self) -> (r: &'a [u8])
        ensures
            r@ == self@.data,
            r@.len() % element_stride(self@.data_type) == 0,
    {
        self.data_slice()
    }

    /// In a MIDAS file, data banks are padded to a multiple of 8 bytes. This
    /// method returns the number of padding bytes that would be required to
    /// make the data area of this data bank a multiple of 8 bytes.
    pub fn required_padding(&self) -> (r: usize)
        ensures
            r as int == padding_of(self@.data.len() as int),
            0 <= r <= 7,
            (self@.data.len() + r) % 8 == 0,
    {
        padding_for(self.data_slice().len())
    }

    /// The number of padding bytes behind the data of this bank in a file.
    pub fn padding(&self) -> (r: usize)
        ensures
            r as int == padding_of(self@.data.len() as int),
            0 <= r <= 7,
            (self@.data.len() + r) % 8 == 0,
    {
        self.required_padding()
    }

    /// The bank as a [`Bank16View`], if it is one.
    pub fn as_b16(&self) -> (r: Option<Bank16View<'a>>)
        ensures
            r is Some == (self.bank_type() == BankType::B16),
            r is Some ==> r->Some_0@ == self@,
    {
        match self {
            BankView::B16(bank) => Some(*bank),
            _ => None,
        }
    }

    /// The bank as a [`Bank32View`], if it is one.
    pub fn as_b32(&self) -> (r: Option<Bank32View<'a>>)
        ensures
            r is Some == (self.bank_type() == BankType::B32),
            r is Some ==> r->Some_0@ == self@,
    {
        match self {
            BankView::B32(bank) => Some(*bank),
            _ => None,
        }
    }

    /// The bank as a [`Bank32AView`], if it is one.
    pub fn as_b32a(&self) -> (r: Option<Bank32AView<'a>>)
        ensures
            r is Some == (self.bank_type() == BankType::B32A),
            r is Some ==> r->Some_0@ == self@,
    {
        match self {
            BankView::B32A(bank) => Some(*bank),
            _ => None,
        }
    }

    /// Returns `true` if this data bank is a [`Bank16View`], and `false`
    /// otherwise.
    pub fn is_b16(&self) -> (r: bool)
        ensures
            r == (self.bank_type() == BankType::B16),
    {
        match self {
            BankView::B16(_) => true,
            _ => false,
        }
    }

    /// Returns `true` if this data bank is a [`Bank32View`], and `false`
    /// otherwise.
    pub fn is_b32(&self) -> (r: bool)
        ensures
            r == (self.bank_type() == BankType::B32),
    {
        match self {
            BankView::B32(_) => true,
            _ => false,
        }
    }

    /// Returns `true` if this data bank is a [`Bank32AView`], and `false`
    /// otherwise.
    pub fn is_b32a(&self) -> (r: bool)
        ensures
            r == (self.bank_type() == BankType::B32A),
    {
        match self {
            BankView::B32A(_) => true,
            _ => false,
        }
    }

    /// The elements of the data, each a slice of the size of the data type;
    /// single bytes where the type has no fixed size.
    pub fn elements(&self) -> (r: Vec<&'a [u8]>)
        ensures
            r@.len() == self@.data.len() / element_stride(self@.data_type),
            forall|i: int|
                0 <= i < r@.len() ==> (#[trigger] r@[i])@ == chunks_of(
                    self@.data,
                    element_stride(self@.data_type) as int,
                )[i],
    {
        match self {
            BankView::B16(bank) => bank.elements(),
            BankView::B32(bank) => bank.elements(),
            BankView::B32A(bank) => bank.elements(),
        }
    }
}

impl<'a> IntoIterator for BankView<'a> {
    type Item = &'a [u8];

    type IntoIter = std::vec::IntoIter<&'a [u8]>;

    fn into_iter(self) -> (r: std::vec::IntoIter<&'a [u8]>)
        ensures
            r.remaining().len() == self@.data.len() / element_stride(self@.data_type),
            forall|i: int|
                0 <= i < r.remaining().len() ==> (#[trigger] r.remaining()[i])@ == chunks_of(
                    self@.data,
                    element_stride(self@.data_type) as int,
                )[i],
    {
        broadcast use vstd::std_specs::vec::axiom_spec_into_iter;

        self.elements().into_iter()
    }
}

impl<'a, 'b> IntoIterator for &'b BankView<'a> {
    type Item = &'a [u8];

    type IntoIter = std::vec::IntoIter<&'a [u8]>;

    fn into_iter(self) -> (r: std::vec::IntoIter<&'a [u8]>)
        ensures
            r.remaining().len() == self@.data.len() / element_stride(self@.data_type),
            forall|i: int|
                0 <= i < r.remaining().len() ==> (#[trigger] r.remaining()[i])@ == chunks_of(
                    self@.data,
                    element_stride(self@.data_type) as int,
                )[i],
    {
        broadcast use vstd::std_specs::vec::axiom_spec_into_iter;

        self.elements().into_iter()
    }
}

/// Decodes the bank of the given layout that starts at `pos`; on success the
/// second component is the offset of the first byte behind its data.
pub fn any_bank_view<'a>(bytes: &'a [u8], pos: usize, endian: Endianness, bank_type: BankType) -> (r:
    Result<(BankView<'a>, usize), TryBankViewFromBytesError>)
    ensures
        r is Ok == parse_bank(bytes@, pos as int, endian, bank_type) is Ok,
        r is Ok ==> r->Ok_0.0@ == parse_bank(bytes@, pos as int, endian, bank_type)->Ok_0.bank
            && r->Ok_0.0.bank_type() == bank_type && r->Ok_0.1 as int == parse_bank(
            bytes@,
            pos as int,
            endian,
            bank_type,
        )->Ok_0.next,
        r is Err ==> r->Err_0.offset as int == parse_bank(
            bytes@,
            pos as int,
            endian,
            bank_type,
        )->Err_0.offset && r->Err_0.kind == parse_bank(bytes@, pos as int, endian, bank_type)->Err_0.kind,
{
    match bank_view(bytes, pos, endian, bank_type) {
        Ok((raw, next)) => {
            let bank = match bank_type {
                BankType::B16 => BankView::B16(Bank16View { raw }),
                BankType::B32 => BankView::B32(Bank32View { raw }),
                BankType::B32A => BankView::B32A(Bank32AView { raw }),
            };
            Ok((bank, next))
        },
        Err(e) => Err(e),
    }
}

/// Decodes the bank of the given layout that starts at `pos` and skips the
/// padding behind it; on success the second component is the offset of the
/// first byte behind the padding.
pub fn padded_bank<'a>(bytes: &'a [u8], pos: usize, endian: Endianness, bank_type: BankType) -> (r:
    Result<(BankView<'a>, usize), TryBankViewFromBytesError>)
    ensures
        r is Ok == parse_padded_bank(bytes@, pos as int, endian, bank_type) is Ok,
        r is Ok ==> r->Ok_0.0@ == parse_padded_bank(bytes@, pos as int, endian, bank_type)->Ok_0.bank
            && r->Ok_0.0.bank_type() == bank_type && r->Ok_0.1 as int == parse_padded_bank(
            bytes@,
            pos as int,
            endian,
            bank_type,
        )->Ok_0.next,
        r is Err ==> r->Err_0.offset as int == parse_padded_bank(
            bytes@,
            pos as int,
            endian,
            bank_type,
        )->Err_0.offset && r->Err_0.kind == parse_padded_bank(
            bytes@,
            pos as int,
            endian,
            bank_type,
        )->Err_0.kind,
{
    match any_bank_view(bytes, pos, endian, bank_type) {
        Ok((bank, next)) => {
            let padding = bank.required_padding();
            if has_bytes(bytes, next, padding) {
                Ok((bank, next + padding))
            } else {
                Err(
                    TryBankViewFromBytesError {
                        offset: next,
                        kind: TryBankViewFromSliceError::SizeMismatch,
                    },
                )
            }
        },
        Err(e) => Err(e),
    }
}

} // verus!
