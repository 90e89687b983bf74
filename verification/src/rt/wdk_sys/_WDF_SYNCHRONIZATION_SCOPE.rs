//! Raw values of `WDF_SYNCHRONIZATION_SCOPE`: how the framework serializes the callbacks of an object.
use vstd::prelude::*;

verus! {

pub type Type = i32;

pub const WdfSynchronizationScopeInvalid: Type = 0;
pub const WdfSynchronizationScopeInheritFromParent: Type = 1;
pub const WdfSynchronizationScopeDevice: Type = 2;
pub const WdfSynchronizationScopeQueue: Type = 3;
pub const WdfSynchronizationScopeNone: Type = 4;

} // verus!
