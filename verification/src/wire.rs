//! Fixed-width fields: byte order, unsigned integers and bank-name bytes.

use vstd::prelude::*;

verus! {

/// Byte order of the multi-byte fields of a file.
#[derive(Clone, Copy, Debug, PartialEq, Eq, Structural)]
pub enum Endianness {
    /// Least significant byte first.
    LittleEndian,
    /// Most significant byte first.
    BigEndian,
}

/// The 16-bit unsigned integer that the two bytes at `pos` encode.
pub open spec fn u16_at(bytes: Seq<u8>, pos: int, endian: Endianness) -> int
    recommends
        0 <= pos,
        pos + 2 <= bytes.len(),
{
    match endian {
        Endianness::LittleEndian => bytes[pos] as int + 256 * (bytes[pos + 1] as int),
        Endianness::BigEndian => 256 * (bytes[pos] as int) + bytes[pos + 1] as int,
    }
}

/// The 32-bit unsigned integer that the four bytes at `pos` encode.
pub open spec fn u32_at(bytes: Seq<u8>, pos: int, endian: Endianness) -> int
    recommends
        0 <= pos,
        pos + 4 <= bytes.len(),
{
    match endian {
        Endianness::LittleEndian => bytes[pos] as int + 256 * (bytes[pos + 1] as int) + 65536 * (
        bytes[pos + 2] as int) + 16777216 * (bytes[pos + 3] as int),
        Endianness::BigEndian => 16777216 * (bytes[pos] as int) + 65536 * (bytes[pos + 1] as int)
            + 256 * (bytes[pos + 2] as int) + bytes[pos + 3] as int,
    }
}

/// Whether `len` bytes starting at `pos` lie inside a buffer of `total` bytes.
pub open spec fn fits(total: int, pos: int, len: int) -> bool {
    0 <= pos && 0 <= len && pos + len <= total
}

/// Tells whether `len` more bytes can be read at `pos`, without overflow.
pub fn has_bytes(bytes: &[u8], pos: usize, len: usize) -> (r: bool)
    ensures
        r == fits(bytes@.len() as int, pos as int, len as int),
        r ==> pos + len <= usize::MAX,
{
    pos <= bytes.len() && len <= bytes.len() - pos
}

/// Reads the 16-bit unsigned integer at `pos` in the given byte order.
pub fn read_u16(bytes: &[u8], pos: usize, endian: Endianness) -> (r: u16)
    requires
        fits(bytes@.len() as int, pos as int, 2),
    ensures
        r as int == u16_at(bytes@, pos as int, endian),
{
    let b0: u16 = bytes[pos] as u16;
    let b1: u16 = bytes[pos + 1] as u16;
    match endian {
        Endianness::LittleEndian => b0 + 256 * b1,
        Endianness::BigEndian => 256 * b0 + b1,
    }
}

/// Reads the 32-bit unsigned integer at `pos` in the given byte order.
pub fn read_u32(bytes: &[u8], pos: usize, endian: Endianness) -> (r: u32)
    requires
        fits(bytes@.len() as int, pos as int, 4),
    ensures
        r as int == u32_at(bytes@, pos as int, endian),
{
    let b0: u32 = bytes[pos] as u32;
    let b1: u32 = bytes[pos + 1] as u32;
    let b2: u32 = bytes[pos + 2] as u32;
    let b3: u32 = bytes[pos + 3] as u32;
    match endian {
        Endianness::LittleEndian => b0 + 256 * b1 + 65536 * b2 + 16777216 * b3,
        Endianness::BigEndian => 16777216 * b0 + 65536 * b1 + 256 * b2 + b3,
    }
}

/// The sub-slice of `len` bytes that starts at `pos`.
pub fn take<'a>(bytes: &'a [u8], pos: usize, len: usize) -> (r: &'a [u8])
    requires
        fits(bytes@.len() as int, pos as int, len as int),
    ensures
        r@ == bytes@.subrange(pos as int, pos + len),
{
    assert(pos + len <= bytes.len());
    vstd::slice::slice_subrange(bytes, pos, pos + len)
}

/// An ASCII letter or digit.
pub open spec fn is_ascii_alphanumeric(b: u8) -> bool {
    (0x30 <= b <= 0x39) || (0x41 <= b <= 0x5A) || (0x61 <= b <= 0x7A)
}

/// Every byte of the sequence is an ASCII letter or digit.
pub open spec fn all_ascii_alphanumeric(s: Seq<u8>) -> bool {
    forall|i: int| 0 <= i < s.len() ==> is_ascii_alphanumeric(#[trigger] s[i])
}

/// Tells whether a byte is an ASCII letter or digit.
pub fn byte_is_ascii_alphanumeric(b: u8) -> (r: bool)
    ensures
        r == is_ascii_alphanumeric(b),
{
    (0x30 <= b && b <= 0x39) || (0x41 <= b && b <= 0x5A) || (0x61 <= b && b <= 0x7A)
}

/// Tells whether every byte of a slice is an ASCII letter or digit.
pub fn are_all_ascii_alphanumeric(slice: &[u8]) -> (r: bool)
    ensures
        r == all_ascii_alphanumeric(slice@),
{
    let mut i: usize = 0;
    while i < slice.len()
        invariant
            i <= slice.len(),
            forall|j: int| 0 <= j < i ==> is_ascii_alphanumeric(#[trigger] slice@[j]),
        decreases slice.len() - i,
    {
        if !byte_is_ascii_alphanumeric(slice[i]) {
            return false;
        }
        i += 1;
    }
    true
}

} // verus!
