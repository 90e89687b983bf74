//! Raw values of `WDF_IO_TARGET_SENT_IO_ACTION`.
use vstd::prelude::*;

verus! {

pub type Type = i32;

pub const WdfIoTargetSentIoUndefined: Type = 0;
pub const WdfIoTargetCancelSentIo: Type = 1;
pub const WdfIoTargetWaitForSentIoToComplete: Type = 2;
pub const WdfIoTargetLeaveSentIoPending: Type = 3;

} // verus!
