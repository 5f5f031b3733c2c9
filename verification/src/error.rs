//! The error taxonomy of the framework: every device-facing operation
//! returns a result, and partial success is modeled explicitly.

use vstd::prelude::*;
use crate::data::StdData;

verus! {

/// What can go wrong across the framework boundary.
///
/// `WriteFull` carries the unsent tail of a payload that a bounded buffer
/// rejected, so the caller can retry with backpressure instead of losing
/// data silently.
#[derive(Debug)]
pub enum IOError {
    OpenError,
    ReadError,
    ReadEmpty,
    WriteError,
    WriteFull(StdData),
    CloseError,
    ControlError,
    WriteBusy,
    FindError,
    RegisterError,
    DataError,
    DeviceOpsError,
}

} // verus!
