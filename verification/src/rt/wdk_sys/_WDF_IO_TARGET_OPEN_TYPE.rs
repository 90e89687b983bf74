//! Raw values of `WDF_IO_TARGET_OPEN_TYPE`.
use vstd::prelude::*;

verus! {

pub type Type = i32;

pub const WdfIoTargetOpenUndefined: Type = 0;
pub const WdfIoTargetOpenUseExistingDevice: Type = 1;
pub const WdfIoTargetOpenByName: Type = 2;
pub const WdfIoTargetOpenReopen: Type = 3;
pub const WdfIoTargetOpenLocalTargetByFile: Type = 4;

} // verus!
