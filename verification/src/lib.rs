//! A read-only codec for MIDAS data-acquisition files.
//!
//! A file is a pair of database dumps that bracket a sequence of events; an
//! event is a sequence of data banks in one of three wire layouts. Every
//! decoder works on a byte slice that is already in memory and hands out
//! views that borrow from it.

pub mod bank;
pub mod banks;
pub mod data_type;
pub mod event;
pub mod events;
pub mod file;
pub mod laws;
pub mod name;
pub mod text;
pub mod views;
pub mod wire;

pub use bank::{BankType, TryBankViewFromBytesError, TryBankViewFromSliceError};
pub use banks::{Bank16Views, Bank32AViews, Bank32Views, BankViews};
pub use data_type::{DataType, TryDataTypeFromUnsignedError};
pub use event::{EventView, TryEventViewFromBytesError, TryEventViewFromSliceError};
pub use events::EventViews;
pub use file::{
    initial_timestamp_unchecked, run_number_unchecked, FileView, ParseError,
    TryFileViewFromSliceError,
};
pub use name::BankName;
pub use views::{Bank16View, Bank32AView, Bank32View, BankView};
pub use wire::Endianness;
