//! What one read from a device stream comes to: an event, or one of the
//! conditions that the device source reports instead.
use vstd::prelude::*;
use crate::event::{RawEvent, EvdevEvent, event_of, make_event};

verus! {

/// The status of a read that delivered a record.
pub const READ_STATUS_SUCCESS: i32 = 0;

/// The status of a read that found events dropped; the reader must resynchronize.
pub const READ_STATUS_SYNC: i32 = 1;

/// Read flag: deliver events in the normal stream.
pub const READ_FLAG_NORMAL: u32 = 2;

/// Read flag: block until an event is queued.
pub const READ_FLAG_BLOCKING: u32 = 8;

/// The flags that a freshly opened device reads with.
pub const DEFAULT_READ_FLAGS: u32 = READ_FLAG_NORMAL | READ_FLAG_BLOCKING;

/// Why a read gave no event.
#[derive(Debug, Clone, Copy, PartialEq, Eq, Structural)]
pub enum ReadError {
    /// Events were dropped; recoverable by resynchronizing.
    SyncLost,
    /// The stream is non-blocking and nothing is queued yet; retry later.
    WouldBlock,
    /// Any other status of the device source.
    Fatal(i32),
}

/// The error number of "try again", as the device source reports it negated.
pub open spec fn eagain_spec() -> int {
    11
}

/// Relies on libc::EAGAIN, the error number of "resource temporarily
/// unavailable", which libc defines as 11 for Linux targets.
#[verifier::external_body]
fn eagain() -> (r: i32)
    ensures
        r == eagain_spec(),
{
    libc::EAGAIN
}

/// The outcome of a read that returned `status` and filled `record`.
pub open spec fn read_outcome_spec(status: i32, record: RawEvent) -> Result<EvdevEvent, ReadError> {
    if status == READ_STATUS_SUCCESS {
        Ok(event_of(record))
    } else if status == READ_STATUS_SYNC {
        Err(ReadError::SyncLost)
    } else if status == -eagain_spec() {
        Err(ReadError::WouldBlock)
    } else {
        Err(ReadError::Fatal(status))
    }
}

/// Turns the status of one read and the record it filled into an event, or into
/// the condition that the status reports.
pub fn read_outcome(status: i32, record: RawEvent) -> (r: Result<EvdevEvent, ReadError>)
    ensures
        r == read_outcome_spec(status, record),
{
    if status == READ_STATUS_SUCCESS {
        Ok(make_event(record))
    } else if status == READ_STATUS_SYNC {
        Err(ReadError::SyncLost)
    } else if status == -eagain() {
        Err(ReadError::WouldBlock)
    } else {
        Err(ReadError::Fatal(status))
    }
}

} // verus!
