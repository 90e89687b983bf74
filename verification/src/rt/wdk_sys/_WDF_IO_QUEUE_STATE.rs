//! Raw values of `WDF_IO_QUEUE_STATE`: the state bits of an I/O queue.
use vstd::prelude::*;

verus! {

pub type Type = i32;

pub const WdfIoQueueAcceptRequests: Type = 0x01;
pub const WdfIoQueueDispatchRequests: Type = 0x02;
pub const WdfIoQueueNoRequests: Type = 0x04;
pub const WdfIoQueueDriverNoRequests: Type = 0x08;
pub const WdfIoQueuePnpHeld: Type = 0x10;

} // verus!
