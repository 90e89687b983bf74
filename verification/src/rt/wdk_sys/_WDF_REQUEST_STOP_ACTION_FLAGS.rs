//! Raw values of `WDF_REQUEST_STOP_ACTION_FLAGS`: why a queue stops a request that the driver holds.
use vstd::prelude::*;

verus! {

pub type Type = i32;

pub const WdfRequestStopActionInvalid: Type = 0;
pub const WdfRequestStopActionSuspend: Type = 0x01;
pub const WdfRequestStopActionPurge: Type = 0x02;
pub const WdfRequestStopRequestCancelable: Type = 0x1000_0000;

} // verus!
