//! Raw values of `WDF_TRI_STATE`.
use vstd::prelude::*;

verus! {

pub type Type = i32;

pub const WdfFalse: Type = 0;
pub const WdfTrue: Type = 1;
pub const WdfUseDefault: Type = 2;

} // verus!
