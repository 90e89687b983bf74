//! Raw values of `WDF_IO_QUEUE_DISPATCH_TYPE`.
use vstd::prelude::*;

verus! {

pub type Type = i32;

pub const WdfIoQueueDispatchInvalid: Type = 0;
pub const WdfIoQueueDispatchSequential: Type = 1;
pub const WdfIoQueueDispatchParallel: Type = 2;
pub const WdfIoQueueDispatchManual: Type = 3;
pub const WdfIoQueueDispatchMax: Type = 4;

} // verus!
