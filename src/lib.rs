//! Decoding of kernel input-device event records into a typed event model,
//! and the decisions behind enumerating and selecting `/dev/input/event*` devices.
pub mod directory;
pub mod event;
pub mod read;

pub use directory::{DirEntry, Error, entry_index, parse_index, scan_entries, select_device};
pub use event::{
    AbsCode, EvdevCode, EvdevData, EvdevEvent, EvdevType, KeyCode, RawEvent, SynCode, TimeVal,
    classify, make_event,
};
pub use read::{ReadError, read_outcome};
