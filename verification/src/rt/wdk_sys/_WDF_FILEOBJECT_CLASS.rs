//! Raw values of `WDF_FILEOBJECT_CLASS`: how the framework tracks the file objects of a device.
use vstd::prelude::*;

verus! {

pub type Type = i32;

pub const WdfFileObjectInvalid: Type = 0;
pub const WdfFileObjectNotRequired: Type = 1;
pub const WdfFileObjectWdfCanUseFsContext: Type = 2;
pub const WdfFileObjectWdfCanUseFsContext2: Type = 3;
pub const WdfFileObjectWdfCannotUseFsContexts: Type = 4;
pub const WdfFileObjectCanBeOptional: Type = -0x8000_0000;

} // verus!
