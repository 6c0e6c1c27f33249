//! The element types that a data bank can hold.

use vstd::prelude::*;
use vstd::std_specs::convert::TryFromSpecImpl;
use vstd::string::StringExecFns;
use crate::text::{decimal, decimal_string};

verus! {

/// Possible data types stored inside a data bank.
#[derive(Clone, Copy, Debug, PartialEq, Eq, Structural)]
#[non_exhaustive]
pub enum DataType {
    /// Unsigned byte.
    U8,
    /// Signed byte.
    I8,
    /// Unsigned 16-bits integer.
    U16,
    /// Signed 16-bits integer.
    I16,
    /// Unsigned 32-bits integer.
    U32,
    /// Signed 32-bits integer.
    I32,
    /// Four bytes boolean.
    Bool,
    /// 32-bits floating-point number.
    F32,
    /// 64-bits floating-point number.
    F64,
    /// String.
    Str,
    /// Array with unknown contents.
    Array,
    /// User-defined structure.
    Struct,
    /// Signed 64-bits integer.
    I64,
    /// Unsigned 64-bits integer.
    U64,
}

/// The data type that a wire code stands for, if it stands for one.
///
/// Codes 1 and 3 both denote an unsigned byte, code 11 (a 32-bit bit field)
/// is read as an unsigned 32-bit integer, and codes 15 and 16 (database key
/// and link) are read as strings.
pub open spec fn data_type_of_code(code: int) -> Option<DataType> {
    if code == 1 || code == 3 {
        Some(DataType::U8)
    } else if code == 2 {
        Some(DataType::I8)
    } else if code == 4 {
        Some(DataType::U16)
    } else if code == 5 {
        Some(DataType::I16)
    } else if code == 6 || code == 11 {
        Some(DataType::U32)
    } else if code == 7 {
        Some(DataType::I32)
    } else if code == 8 {
        Some(DataType::Bool)
    } else if code == 9 {
        Some(DataType::F32)
    } else if code == 10 {
        Some(DataType::F64)
    } else if code == 12 || code == 15 || code == 16 {
        Some(DataType::Str)
    } else if code == 13 {
        Some(DataType::Array)
    } else if code == 14 {
        Some(DataType::Struct)
    } else if code == 17 {
        Some(DataType::I64)
    } else if code == 18 {
        Some(DataType::U64)
    } else {
        None
    }
}

/// The size in bytes of one element, or `None` for a type of variable size.
pub open spec fn size_of(data_type: DataType) -> Option<nat> {
    match data_type {
        DataType::U8 | DataType::I8 => Some(1),
        DataType::U16 | DataType::I16 => Some(2),
        DataType::U32 | DataType::I32 | DataType::Bool | DataType::F32 => Some(4),
        DataType::F64 | DataType::I64 | DataType::U64 => Some(8),
        DataType::Str | DataType::Array | DataType::Struct => None,
    }
}

/// The number that the length of a bank's data must be a multiple of: the
/// element size, or 1 for a type of variable size.
pub open spec fn element_stride(data_type: DataType) -> nat {
    match size_of(data_type) {
        Some(n) => n,
        None => 1,
    }
}

/// The error type returned when conversion from unsigned integer to
/// [`DataType`] fails.
#[derive(Clone, Copy, Debug, PartialEq, Eq, Structural)]
pub struct TryDataTypeFromUnsignedError {
    /// The wire code that stands for no data type, widened to the largest
    /// unsigned integer.
    pub input: u128,
}

impl TryDataTypeFromUnsignedError {
    /// A sentence that describes the error: it names the wire code in
    /// decimal digits.
    pub fn message(&self) -> (r: String)
        ensures
            r@ == unknown_code_text(self.input),
    {
        let mut text = String::from_str("unknown conversion from unsigned `");
        let number = decimal_string(self.input);
        text.append(number.as_str());
        text.append("` to DataType");
        text
    }
}

/// The sentence that describes a wire code that stands for no data type.
pub open spec fn unknown_code_text(input: u128) -> Seq<char> {
    "unknown conversion from unsigned `"@ + decimal(input as nat) + "` to DataType"@
}

/// What converting a wire code gives: the data type, or the code back in an
/// error.
pub open spec fn data_type_from_code(code: u128) -> Result<
    DataType,
    TryDataTypeFromUnsignedError,
> {
    match data_type_of_code(code as int) {
        Some(data_type) => Ok(data_type),
        None => Err(TryDataTypeFromUnsignedError { input: code }),
    }
}

impl DataType {
    /// Another name of [`DataType::U8`], the unsigned byte of wire code 1.
    #[allow(non_upper_case_globals)]
    pub const Byte: DataType = DataType::U8;

    /// Returns the size in bytes of an element of this type, or `None` if the
    /// type has no fixed size.
    pub fn size(&self) -> (r: Option<usize>)
        ensures
            r.is_some() == size_of(*self).is_some(),
            r.is_some() ==> r.unwrap() as nat == size_of(*self).unwrap(),
    {
        match self {
            DataType::U8 => Some(1),
            DataType::I8 => Some(1),
            DataType::U16 => Some(2),
            DataType::I16 => Some(2),
            DataType::U32 => Some(4),
            DataType::I32 => Some(4),
            DataType::Bool => Some(4),
            DataType::F32 => Some(4),
            DataType::F64 => Some(8),
            DataType::Str => None,
            DataType::Array => None,
            DataType::Struct => None,
            DataType::I64 => Some(8),
            DataType::U64 => Some(8),
        }
    }

    /// The number that the length of a bank's data must be a multiple of.
    pub fn stride(&self) -> (r: usize)
        ensures
            r as nat == element_stride(*self),
            1 <= r <= 8,
    {
        match self.size() {
            Some(n) => n,
            None => 1,
        }
    }

    /// Converts a wire code of any unsigned width.
    pub fn from_code(code: u128) -> (r: Result<DataType, TryDataTypeFromUnsignedError>)
        ensures
            r == data_type_from_code(code),
    {
        if code == 1 || code == 3 {
            Ok(DataType::U8)
        } else if code == 2 {
            Ok(DataType::I8)
        } else if code == 4 {
            Ok(DataType::U16)
        } else if code == 5 {
            Ok(DataType::I16)
        } else if code == 6 || code == 11 {
            Ok(DataType::U32)
        } else if code == 7 {
            Ok(DataType::I32)
        } else if code == 8 {
            Ok(DataType::Bool)
        } else if code == 9 {
            Ok(DataType::F32)
        } else if code == 10 {
            Ok(DataType::F64)
        } else if code == 12 || code == 15 || code == 16 {
            Ok(DataType::Str)
        } else if code == 13 {
            Ok(DataType::Array)
        } else if code == 14 {
            Ok(DataType::Struct)
        } else if code == 17 {
            Ok(DataType::I64)
        } else if code == 18 {
            Ok(DataType::U64)
        } else {
            Err(TryDataTypeFromUnsignedError { input: code })
        }
    }
}

impl TryFromSpecImpl<u8> for DataType {
    open spec fn obeys_try_from_spec() -> bool {
        true
    }

    open spec fn try_from_spec(num: u8) -> Result<DataType, TryDataTypeFromUnsignedError> {
        data_type_from_code(num as u128)
    }
}

impl TryFrom<u8> for DataType {
    type Error = TryDataTypeFromUnsignedError;

    fn try_from(num: u8) -> (r: Result<DataType, TryDataTypeFromUnsignedError>) {
        DataType::from_code(num as u128)
    }
}

impl TryFromSpecImpl<u16> for DataType {
    open spec fn obeys_try_from_spec() -> bool {
        true
    }

    open spec fn try_from_spec(num: u16) -> Result<DataType, TryDataTypeFromUnsignedError> {
        data_type_from_code(num as u128)
    }
}

impl TryFrom<u16> for DataType {
    type Error = TryDataTypeFromUnsignedError;

    fn try_from(num: u16) -> (r: Result<DataType, TryDataTypeFromUnsignedError>) {
        DataType::from_code(num as u128)
    }
}

impl TryFromSpecImpl<u32> for DataType {
    open spec fn obeys_try_from_spec() -> bool {
        true
    }

    open spec fn try_from_spec(num: u32) -> Result<DataType, TryDataTypeFromUnsignedError> {
        data_type_from_code(num as u128)
    }
}

impl TryFrom<u32> for DataType {
    type Error = TryDataTypeFromUnsignedError;

    fn try_from(num: u32) -> (r: Result<DataType, TryDataTypeFromUnsignedError>) {
        DataType::from_code(num as u128)
    }
}

impl TryFromSpecImpl<u64> for DataType {
    open spec fn obeys_try_from_spec() -> bool {
        true
    }

    open spec fn try_from_spec(num: u64) -> Result<DataType, TryDataTypeFromUnsignedError> {
        data_type_from_code(num as u128)
    }
}

impl TryFrom<u64> for DataType {
    type Error = TryDataTypeFromUnsignedError;

    fn try_from(num: u64) -> (r: Result<DataType, TryDataTypeFromUnsignedError>) {
        DataType::from_code(num as u128)
    }
}

impl TryFromSpecImpl<u128> for DataType {
    open spec fn obeys_try_from_spec() -> bool {
        true
    }

    open spec fn try_from_spec(num: u128) -> Result<DataType, TryDataTypeFromUnsignedError> {
        data_type_from_code(num)
    }
}

impl TryFrom<u128> for DataType {
    type Error = TryDataTypeFromUnsignedError;

    fn try_from(num: u128) -> (r: Result<DataType, TryDataTypeFromUnsignedError>) {
        DataType::from_code(num)
    }
}

} // verus!
