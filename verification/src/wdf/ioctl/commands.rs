//! IOCTL command codes.
use vstd::prelude::*;

verus! {

/// An IOCTL command code.
pub type IoCtlCommand = u32;

/// Reads a HID collection's information (method neither).
pub const IOCTL_HID_GET_COLLECTION_INFORMATION: IoCtlCommand = 0x000B_01A8;

/// Reads a HID collection's preparsed data (method buffered).
pub const IOCTL_HID_GET_PREPARSED_DATA: IoCtlCommand = 0x000B_001C;

} // verus!
