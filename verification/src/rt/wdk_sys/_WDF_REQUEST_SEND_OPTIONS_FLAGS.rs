//! Raw values of `WDF_REQUEST_SEND_OPTIONS_FLAGS`: the options with which a request is sent to an I/O target.
use vstd::prelude::*;

verus! {

pub type Type = i32;

pub const WDF_REQUEST_SEND_OPTION_TIMEOUT: Type = 0x0000_0001;
pub const WDF_REQUEST_SEND_OPTION_SYNCHRONOUS: Type = 0x0000_0002;
pub const WDF_REQUEST_SEND_OPTION_IGNORE_TARGET_STATE: Type = 0x0000_0004;
pub const WDF_REQUEST_SEND_OPTION_SEND_AND_FORGET: Type = 0x0000_0008;
pub const WDF_REQUEST_SEND_OPTION_IMPERSONATE_CLIENT: Type = 0x0001_0000;
pub const WDF_REQUEST_SEND_OPTION_IMPERSONATION_IGNORE_FAILURE: Type = 0x0002_0000;

} // verus!
