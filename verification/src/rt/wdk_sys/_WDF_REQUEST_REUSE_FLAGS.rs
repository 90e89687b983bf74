//! Raw values of `WDF_REQUEST_REUSE_FLAGS`: how a request is reused.
use vstd::prelude::*;

verus! {

pub type Type = i32;

pub const WDF_REQUEST_REUSE_NO_FLAGS: Type = 0x0;
pub const WDF_REQUEST_REUSE_SET_NEW_IRP: Type = 0x1;

} // verus!
