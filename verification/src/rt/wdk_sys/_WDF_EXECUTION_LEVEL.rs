//! Raw values of `WDF_EXECUTION_LEVEL`: the IRQL at which the callbacks of an object run.
use vstd::prelude::*;

verus! {

pub type Type = i32;

pub const WdfExecutionLevelInvalid: Type = 0;
pub const WdfExecutionLevelInheritFromParent: Type = 1;
pub const WdfExecutionLevelPassive: Type = 2;
pub const WdfExecutionLevelDispatch: Type = 3;

} // verus!
