//! Raw values of `WDF_IO_TARGET_STATE`.
use vstd::prelude::*;

verus! {

pub type Type = i32;

pub const WdfIoTargetStateUndefined: Type = 0;
pub const WdfIoTargetStarted: Type = 1;
pub const WdfIoTargetStopped: Type = 2;
pub const WdfIoTargetClosedForQueryRemove: Type = 3;
pub const WdfIoTargetClosed: Type = 4;
pub const WdfIoTargetDeleted: Type = 5;
pub const WdfIoTargetPurged: Type = 6;

} // verus!
