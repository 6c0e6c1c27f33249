//! Cursors that walk over the padded banks of a byte slice.

use vstd::prelude::*;
use crate::bank::{
    banks_end, banks_from, lemma_bank_advances, parse_padded_bank, BankFailure, BankType,
    ParsedBank, TryBankViewFromBytesError,
};
use crate::views::{padded_bank, Bank16View, Bank32AView, Bank32View, BankView};
use crate::wire::{take, Endianness};

verus! {

/// What a cursor over a byte slice stands at.
pub struct CursorSpec {
    /// The whole slice that the cursor was made from.
    pub bytes: Seq<u8>,
    /// The offset of the next byte to decode.
    pub position: int,
    /// The byte order of the fields.
    pub endian: Endianness,
}

/// The cursor after a step that decoded up to `next`.
pub open spec fn advanced(cursor: CursorSpec, next: int) -> CursorSpec {
    CursorSpec { bytes: cursor.bytes, position: next, endian: cursor.endian }
}

/// Whether an executable failure is the failure of the model.
pub open spec fn stops_at(e: TryBankViewFromBytesError, model: Result<ParsedBank, BankFailure>) -> bool {
    model is Err && e.offset as int == model->Err_0.offset && e.kind == model->Err_0.kind
}

/// A cursor over banks of a layout that is chosen when it is made.
#[derive(Clone, Copy, Debug)]
pub struct RawBankViews<'a> {
    curr: usize,
    slice: &'a [u8],
    endianness: Endianness,
    bank_type: BankType,
}

impl<'a> View for RawBankViews<'a> {
    type V = CursorSpec;

    closed spec fn view(&self) -> CursorSpec {
        CursorSpec { bytes: self.slice@, position: self.curr as int, endian: self.endianness }
    }
}

impl<'a> RawBankViews<'a> {
    #[verifier::type_invariant]
    closed spec fn well_formed(&self) -> bool {
        self.curr <= self.slice@.len()
    }

    /// The layout of the banks.
    pub closed spec fn bank_type(&self) -> BankType {
        self.bank_type
    }

    /// A cursor at the start of `buffer`.
    pub fn new(buffer: &'a [u8], endianness: Endianness, bank_type: BankType) -> (r: Self)
        ensures
            r@ == (CursorSpec { bytes: buffer@, position: 0, endian: endianness }),
            r.bank_type() == bank_type,
    {
        RawBankViews { curr: 0, slice: buffer, endianness, bank_type }
    }

    /// The bytes that have not been decoded yet.
    pub fn remainder(&self) -> (r: &'a [u8])
        ensures
            0 <= self@.position <= self@.bytes.len(),
            r@ == self@.bytes.subrange(self@.position, self@.bytes.len() as int),
    {
        proof {
            use_type_invariant(self);
        }
        take(self.slice, self.curr, self.slice.len() - self.curr)
    }

    /// Decodes the bank at the cursor and moves behind its padding. Where no
    /// padded bank can be decoded the cursor stays and the result tells where
    /// and why decoding stopped.
    pub fn try_next(&mut self) -> (r: Result<BankView<'a>, TryBankViewFromBytesError>)
        ensures
            final(self).bank_type() == old(self).bank_type(),
            match parse_padded_bank(
                old(self)@.bytes,
                old(self)@.position,
                old(self)@.endian,
                old(self).bank_type(),
            ) {
                Ok(parsed) => r is Ok && r->Ok_0@ == parsed.bank && r->Ok_0.bank_type() == old(
                    self,
                ).bank_type() && final(self)@ == advanced(old(self)@, parsed.next),
                Err(failure) => r is Err && r->Err_0.offset as int == failure.offset
                    && r->Err_0.kind == failure.kind && final(self)@ == old(self)@,
            },
    {
        proof {
            use_type_invariant(&*self);
            lemma_bank_advances(self.slice@, self.curr as int, self.endianness, self.bank_type);
        }
        match padded_bank(self.slice, self.curr, self.endianness, self.bank_type) {
            Ok((bank, next)) => {
                self.curr = next;
                Ok(bank)
            },
            Err(e) => Err(e),
        }
    }

    /// Decodes the bank at the cursor and moves behind its padding. Where no
    /// padded bank can be decoded the cursor stays and the result is `None`.
    pub fn next(&mut self) -> (r: Option<BankView<'a>>)
        ensures
            final(self).bank_type() == old(self).bank_type(),
            match parse_padded_bank(
                old(self)@.bytes,
                old(self)@.position,
                old(self)@.endian,
                old(self).bank_type(),
            ) {
                Ok(parsed) => r is Some && r->Some_0@ == parsed.bank && r->Some_0.bank_type() == old(
                    self,
                ).bank_type() && final(self)@ == advanced(old(self)@, parsed.next),
                Err(_) => r is None && final(self)@ == old(self)@,
            },
    {
        match self.try_next() {
            Ok(bank) => Some(bank),
            Err(_) => None,
        }
    }

    /// The number of banks that `next` would still give.
    pub fn count(self) -> (r: usize)
        ensures
            r == banks_from(self@.bytes, self@.position, self@.endian, self.bank_type()).len(),
    {
        let mut cursor = self;
        let mut n: usize = 0;
        proof {
            use_type_invariant(&cursor);
            assert(cursor.slice.len() <= usize::MAX);
        }
        loop
            invariant
                cursor@.bytes == self@.bytes,
                cursor@.endian == self@.endian,
                cursor.bank_type() == self.bank_type(),
                0 <= n <= cursor@.position <= cursor@.bytes.len() <= usize::MAX,
                n + banks_from(
                    cursor@.bytes,
                    cursor@.position,
                    cursor@.endian,
                    cursor.bank_type(),
                ).len() == banks_from(
                    self@.bytes,
                    self@.position,
                    self@.endian,
                    self.bank_type(),
                ).len(),
            decreases cursor@.bytes.len() - cursor@.position,
        {
            proof {
                lemma_bank_advances(
                    cursor@.bytes,
                    cursor@.position,
                    cursor@.endian,
                    cursor.bank_type(),
                );
            }
            match cursor.next() {
                Some(_) => {
                    n = n + 1;
                },
                None => {
                    return n;
                },
            }
        }
    }

    /// Decodes every bank that `next` would still give and tells where and
    /// why decoding then stops.
    pub fn collect(self) -> (r: (Vec<BankView<'a>>, usize, TryBankViewFromBytesError))
        ensures
            r.0@.len() == banks_from(
                self@.bytes,
                self@.position,
                self@.endian,
                self.bank_type(),
            ).len(),
            forall|i: int|
                0 <= i < r.0@.len() ==> (#[trigger] r.0@[i])@ == banks_from(
                    self@.bytes,
                    self@.position,
                    self@.endian,
                    self.bank_type(),
                )[i] && r.0@[i].bank_type() == self.bank_type(),
            r.1 as int == banks_end(self@.bytes, self@.position, self@.endian, self.bank_type()),
            self@.position <= r.1 <= self@.bytes.len(),
            stops_at(
                r.2,
                parse_padded_bank(
                    self@.bytes,
                    banks_end(self@.bytes, self@.position, self@.endian, self.bank_type()),
                    self@.endian,
                    self.bank_type(),
                ),
            ),
    {
        let mut cursor = self;
        let mut banks: Vec<BankView<'a>> = Vec::new();
        proof {
            use_type_invariant(&cursor);
            assert(cursor.slice.len() <= usize::MAX);
        }
        let ghost all = banks_from(self@.bytes, self@.position, self@.endian, self.bank_type());
        loop
            invariant
                cursor@.bytes == self@.bytes,
                cursor@.endian == self@.endian,
                cursor.bank_type() == self.bank_type(),
                self@.position <= cursor@.position <= cursor@.bytes.len() <= usize::MAX,
                all == banks_from(self@.bytes, self@.position, self@.endian, self.bank_type()),
                banks@.len() + banks_from(
                    cursor@.bytes,
                    cursor@.position,
                    cursor@.endian,
                    cursor.bank_type(),
                ).len() == all.len(),
                forall|i: int|
                    0 <= i < banks@.len() ==> (#[trigger] banks@[i])@ == all[i]
                        && banks@[i].bank_type() == self.bank_type(),
                forall|i: int|
                    0 <= i < all.len() - banks@.len() ==> #[trigger] banks_from(
                        cursor@.bytes,
                        cursor@.position,
                        cursor@.endian,
                        cursor.bank_type(),
                    )[i] == all[banks@.len() + i],
                banks_end(cursor@.bytes, cursor@.position, cursor@.endian, cursor.bank_type())
                    == banks_end(self@.bytes, self@.position, self@.endian, self.bank_type()),
            decreases cursor@.bytes.len() - cursor@.position,
        {
            proof {
                lemma_bank_advances(
                    cursor@.bytes,
                    cursor@.position,
                    cursor@.endian,
                    cursor.bank_type(),
                );
            }
            let ghost before = cursor@;
            let ghost rest = banks_from(before.bytes, before.position, before.endian, cursor.bank_type());
            match cursor.try_next() {
                Ok(bank) => {
                    proof {
                        let after = banks_from(
                            cursor@.bytes,
                            cursor@.position,
                            cursor@.endian,
                            cursor.bank_type(),
                        );
                        assert(rest =~= seq![bank@] + after);
                        assert(rest[0] == bank@);
                        assert forall|i: int| 0 <= i < after.len() implies after[i] == all[
                            banks@.len() + 1 + i
                        ] by {
                            assert(after[i] == rest[i + 1]);
                        }
                    }
                    banks.push(bank);
                },
                Err(e) => {
                    proof {
                        use_type_invariant(&cursor);
                    }
                    return (banks, cursor.curr, e);
                },
            }
        }
    }
}

/// A cursor over the 16-bit banks of a byte slice, each followed by its
/// padding.
#[derive(Clone, Copy, Debug)]
pub struct Bank16Views<'a> {
    raw: RawBankViews<'a>,
}

impl<'a> View for Bank16Views<'a> {
    type V = CursorSpec;

    closed spec fn view(&self) -> CursorSpec {
        self.raw@
    }
}

impl<'a> Bank16Views<'a> {
    #[verifier::type_invariant]
    closed spec fn well_formed(&self) -> bool {
        self.raw.bank_type() == BankType::B16
    }

    /// A cursor at the start of a little-endian buffer.
    pub fn from_le_bytes(buffer: &'a [u8]) -> (r: Self)
        ensures
            r@ == (CursorSpec {
                bytes: buffer@,
                position: 0,
                endian: Endianness::LittleEndian,
            }),
    {
        Bank16Views { raw: RawBankViews::new(buffer, Endianness::LittleEndian, BankType::B16) }
    }

    /// A cursor at the start of a big-endian buffer.
    pub fn from_be_bytes(buffer: &'a [u8]) -> (r: Self)
        ensures
            r@ == (CursorSpec { bytes: buffer@, position: 0, endian: Endianness::BigEndian }),
    {
        Bank16Views { raw: RawBankViews::new(buffer, Endianness::BigEndian, BankType::B16) }
    }

    /// The bytes that have not been decoded yet.
    pub fn remainder(&self) -> (r: &'a [u8])
        ensures
            0 <= self@.position <= self@.bytes.len(),
            r@ == self@.bytes.subrange(self@.position, self@.bytes.len() as int),
    {
        self.raw.remainder()
    }

    /// Decodes the bank at the cursor and moves behind its padding. Where no
    /// padded bank can be decoded the cursor stays and the result is `None`.
    pub fn next(&mut self) -> (r: Option<Bank16View<'a>>)
        ensures
            match parse_padded_bank(
                old(self)@.bytes,
                old(self)@.position,
                old(self)@.endian,
                BankType::B16,
            ) {
                Ok(parsed) => r is Some && r->Some_0@ == parsed.bank && final(self)@ == advanced(
                    old(self)@,
                    parsed.next,
                ),
                Err(_) => r is None && final(self)@ == old(self)@,
            },
    {
        proof {
            use_type_invariant(&*self);
        }
        let mut raw = self.raw;
        let bank = raw.next();
        self.raw = raw;
        match bank {
            Some(bank) => bank.as_b16(),
            None => None,
        }
    }

    /// The number of banks that `next` would still give.
    pub fn count(self) -> (r: usize)
        ensures
            r == banks_from(self@.bytes, self@.position, self@.endian, BankType::B16).len(),
    {
        proof {
            use_type_invariant(&self);
        }
        self.raw.count()
    }
}

/// A cursor over the 32-bit banks of a byte slice, each followed by its
/// padding.
#[derive(Clone, Copy, Debug)]
pub struct Bank32Views<'a> {
    raw: RawBankViews<'a>,
}

impl<'a> View for Bank32Views<'a> {
    type V = CursorSpec;

    closed spec fn view(&self) -> CursorSpec {
        self.raw@
    }
}

impl<'a> Bank32Views<'a> {
    #[verifier::type_invariant]
    closed spec fn well_formed(&self) -> bool {
        self.raw.bank_type() == BankType::B32
    }

    /// A cursor at the start of a little-endian buffer.
    pub fn from_le_bytes(buffer: &'a [u8]) -> (r: Self)
        ensures
            r@ == (CursorSpec {
                bytes: buffer@,
                position: 0,
                endian: Endianness::LittleEndian,
            }),
    {
        Bank32Views { raw: RawBankViews::new(buffer, Endianness::LittleEndian, BankType::B32) }
    }

    /// A cursor at the start of a big-endian buffer.
    pub fn from_be_bytes(buffer: &'a [u8]) -> (r: Self)
        ensures
            r@ == (CursorSpec { bytes: buffer@, position: 0, endian: Endianness::BigEndian }),
    {
        Bank32Views { raw: RawBankViews::new(buffer, Endianness::BigEndian, BankType::B32) }
    }

    /// The bytes that have not been decoded yet.
    pub fn remainder(&self) -> (r: &'a [u8])
        ensures
            0 <= self@.position <= self@.bytes.len(),
            r@ == self@.bytes.subrange(self@.position, self@.bytes.len() as int),
    {
        self.raw.remainder()
    }

    /// Decodes the bank at the cursor and moves behind its padding. Where no
    /// padded bank can be decoded the cursor stays and the result is `None`.
    pub fn next(&mut self) -> (r: Option<Bank32View<'a>>)
        ensures
            match parse_padded_bank(
                old(self)@.bytes,
                old(self)@.position,
                old(self)@.endian,
                BankType::B32,
            ) {
                Ok(parsed) => r is Some && r->Some_0@ == parsed.bank && final(self)@ == advanced(
                    old(self)@,
                    parsed.next,
                ),
                Err(_) => r is None && final(self)@ == old(self)@,
            },
    {
        proof {
            use_type_invariant(&*self);
        }
        let mut raw = self.raw;
        let bank = raw.next();
        self.raw = raw;
        match bank {
            Some(bank) => bank.as_b32(),
            None => None,
        }
    }

    /// The number of banks that `next` would still give.
    pub fn count(self) -> (r: usize)
        ensures
            r == banks_from(self@.bytes, self@.position, self@.endian, BankType::B32).len(),
    {
        proof {
            use_type_invariant(&self);
        }
        self.raw.count()
    }
}

/// A cursor over the 32-bit, 64-bit aligned, banks of a byte slice, each followed by its
/// padding.
#[derive(Clone, Copy, Debug)]
pub struct Bank32AViews<'a> {
    raw: RawBankViews<'a>,
}

impl<'a> View for Bank32AViews<'a> {
    type V = CursorSpec;

    closed spec fn view(&self) -> CursorSpec {
        self.raw@
    }
}

impl<'a> Bank32AViews<'a> {
    #[verifier::type_invariant]
    closed spec fn well_formed(&self) -> bool {
        self.raw.bank_type() == BankType::B32A
    }

    /// A cursor at the start of a little-endian buffer.
    pub fn from_le_bytes(buffer: &'a [u8]) -> (r: Self)
        ensures
            r@ == (CursorSpec {
                bytes: buffer@,
                position: 0,
                endian: Endianness::LittleEndian,
            }),
    {
        Bank32AViews { raw: RawBankViews::new(buffer, Endianness::LittleEndian, BankType::B32A) }
    }

    /// A cursor at the start of a big-endian buffer.
    pub fn from_be_bytes(buffer: &'a [u8]) -> (r: Self)
        ensures
            r@ == (CursorSpec { bytes: buffer@, position: 0, endian: Endianness::BigEndian }),
    {
        Bank32AViews { raw: RawBankViews::new(buffer, Endianness::BigEndian, BankType::B32A) }
    }

    /// The bytes that have not been decoded yet.
    pub fn remainder(&self) -> (r: &'a [u8])
        ensures
            0 <= self@.position <= self@.bytes.len(),
            r@ == self@.bytes.subrange(self@.position, self@.bytes.len() as int),
    {
        self.raw.remainder()
    }

    /// Decodes the bank at the cursor and moves behind its padding. Where no
    /// padded bank can be decoded the cursor stays and the result is `None`.
    pub fn next(&mut self) -> (r: Option<Bank32AView<'a>>)
        ensures
            match parse_padded_bank(
                old(self)@.bytes,
                old(self)@.position,
                old(self)@.endian,
                BankType::B32A,
            ) {
                Ok(parsed) => r is Some && r->Some_0@ == parsed.bank && final(self)@ == advanced(
                    old(self)@,
                    parsed.next,
                ),
                Err(_) => r is None && final(self)@ == old(self)@,
            },
    {
        proof {
            use_type_invariant(&*self);
        }
        let mut raw = self.raw;
        let bank = raw.next();
        self.raw = raw;
        match bank {
            Some(bank) => bank.as_b32a(),
            None => None,
        }
    }

    /// The number of banks that `next` would still give.
    pub fn count(self) -> (r: usize)
        ensures
            r == banks_from(self@.bytes, self@.position, self@.endian, BankType::B32A).len(),
    {
        proof {
            use_type_invariant(&self);
        }
        self.raw.count()
    }
}

/// A cursor over the banks of a byte slice, in any of the three layouts.
#[derive(Clone, Copy, Debug)]
pub enum BankViews<'a> {
    /// Over 16-bit banks.
    B16(Bank16Views<'a>),
    /// Over 32-bit banks.
    B32(Bank32Views<'a>),
    /// Over 32-bit banks 64-bit aligned.
    B32A(Bank32AViews<'a>),
}

impl<'a> View for BankViews<'a> {
    type V = CursorSpec;

    open spec fn view(&self) -> CursorSpec {
        match *self {
            BankViews::B16(cursor) => cursor@,
            BankViews::B32(cursor) => cursor@,
            BankViews::B32A(cursor) => cursor@,
        }
    }
}

impl<'a> BankViews<'a> {
    /// The layout of the banks.
    pub open spec fn bank_type(&self) -> BankType {
        match *self {
            BankViews::B16(_) => BankType::B16,
            BankViews::B32(_) => BankType::B32,
            BankViews::B32A(_) => BankType::B32A,
        }
    }

    /// The bytes that have not been decoded yet.
    pub fn remainder(&self) -> (r: &'a [u8])
        ensures
            0 <= self@.position <= self@.bytes.len(),
            r@ == self@.bytes.subrange(self@.position, self@.bytes.len() as int),
    {
        match self {
            BankViews::B16(cursor) => cursor.remainder(),
            BankViews::B32(cursor) => cursor.remainder(),
            BankViews::B32A(cursor) => cursor.remainder(),
        }
    }

    /// Decodes the bank at the cursor and moves behind its padding. Where no
    /// padded bank can be decoded the cursor stays and the result is `None`.
    pub fn next(&mut self) -> (r: Option<BankView<'a>>)
        ensures
            final(self).bank_type() == old(self).bank_type(),
            match parse_padded_bank(
                old(self)@.bytes,
                old(self)@.position,
                old(self)@.endian,
                old(self).bank_type(),
            ) {
                Ok(parsed) => r is Some && r->Some_0@ == parsed.bank && r->Some_0.bank_type() == old(
                    self,
                ).bank_type() && final(self)@ == advanced(old(self)@, parsed.next),
                Err(_) => r is None && final(self)@ == old(self)@,
            },
    {
        match self {
            BankViews::B16(cursor) => match cursor.next() {
                Some(bank) => Some(BankView::B16(bank)),
                None => None,
            },
            BankViews::B32(cursor) => match cursor.next() {
                Some(bank) => Some(BankView::B32(bank)),
                None => None,
            },
            BankViews::B32A(cursor) => match cursor.next() {
                Some(bank) => Some(BankView::B32A(bank)),
                None => None,
            },
        }
    }

    /// The number of banks that `next` would still give.
    pub fn count(self) -> (r: usize)
        ensures
            r == banks_from(self@.bytes, self@.position, self@.endian, self.bank_type()).len(),
    {
        match self {
            BankViews::B16(cursor) => cursor.count(),
            BankViews::B32(cursor) => cursor.count(),
            BankViews::B32A(cursor) => cursor.count(),
        }
    }
}

} // verus!
