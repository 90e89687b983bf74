//! Raw values of `WDF_IO_TARGET_PURGE_IO_ACTION`.
use vstd::prelude::*;

verus! {

pub type Type = i32;

pub const WdfIoTargetPurgeIoUndefined: Type = 0;
pub const WdfIoTargetPurgeIoAndWait: Type = 1;
pub const WdfIoTargetPurgeIo: Type = 2;

} // verus!
