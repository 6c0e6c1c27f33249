//! The four-character name of a data bank.

use vstd::prelude::*;
use vstd::std_specs::cmp::PartialEqSpecImpl;
use vstd::string::StringSliceAdditionalSpecFns;
use crate::wire::{all_ascii_alphanumeric, are_all_ascii_alphanumeric, fits, take};

verus! {

/// The name of a data bank: exactly four ASCII letters or digits.
///
/// It compares equal to a string slice or to an array of four bytes that
/// holds the same bytes.
#[derive(Clone, Copy, Debug)]
pub struct BankName {
    bytes: [u8; 4],
}

impl View for BankName {
    type V = Seq<u8>;

    closed spec fn view(&self) -> Seq<u8> {
        self.bytes@
    }
}

impl BankName {
    #[verifier::type_invariant]
    closed spec fn well_formed(&self) -> bool {
        all_ascii_alphanumeric(self.bytes@)
    }

    /// Reads a name from the four bytes at `pos`, or gives `None` if one of
    /// them is no ASCII letter or digit.
    pub fn from_bytes_at(bytes: &[u8], pos: usize) -> (r: Option<BankName>)
        requires
            fits(bytes@.len() as int, pos as int, 4),
        ensures
            r.is_some() == all_ascii_alphanumeric(bytes@.subrange(pos as int, pos + 4)),
            r.is_some() ==> r.unwrap()@ == bytes@.subrange(pos as int, pos + 4),
    {
        let field = take(bytes, pos, 4);
        if are_all_ascii_alphanumeric(field) {
            let name: [u8; 4] = [field[0], field[1], field[2], field[3]];
            assert(name@ =~= field@);
            Some(BankName { bytes: name })
        } else {
            None
        }
    }

    /// The four bytes of the name.
    pub fn as_bytes(&self) -> (r: [u8; 4])
        ensures
            r@ == self@,
            r@.len() == 4,
            all_ascii_alphanumeric(r@),
    {
        proof {
            use_type_invariant(self);
        }
        self.bytes
    }
}

impl PartialEq<BankName> for BankName {
    fn eq(&self, other: &BankName) -> (r: bool) {
        self.bytes[0] == other.bytes[0] && self.bytes[1] == other.bytes[1] && self.bytes[2]
            == other.bytes[2] && self.bytes[3] == other.bytes[3]
    }
}

impl PartialEqSpecImpl<BankName> for BankName {
    open spec fn obeys_eq_spec() -> bool {
        true
    }

    open spec fn eq_spec(&self, other: &BankName) -> bool {
        self@ =~= other@
    }
}

impl PartialEq<[u8; 4]> for BankName {
    fn eq(&self, other: &[u8; 4]) -> (r: bool) {
        self.bytes[0] == other[0] && self.bytes[1] == other[1] && self.bytes[2] == other[2]
            && self.bytes[3] == other[3]
    }
}

impl PartialEqSpecImpl<[u8; 4]> for BankName {
    open spec fn obeys_eq_spec() -> bool {
        true
    }

    open spec fn eq_spec(&self, other: &[u8; 4]) -> bool {
        self@ =~= other@
    }
}

impl<'b> PartialEq<BankName> for &'b str {
    fn eq(&self, other: &BankName) -> (r: bool) {
        let text = self.as_bytes();
        text.len() == 4 && text[0] == other.bytes[0] && text[1] == other.bytes[1] && text[2]
            == other.bytes[2] && text[3] == other.bytes[3]
    }
}

impl<'b> PartialEqSpecImpl<BankName> for &'b str {
    open spec fn obeys_eq_spec() -> bool {
        true
    }

    open spec fn eq_spec(&self, other: &BankName) -> bool {
        self.spec_bytes() =~= other@
    }
}

} // verus!
