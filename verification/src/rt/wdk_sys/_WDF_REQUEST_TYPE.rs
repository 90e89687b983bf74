//! Raw values of `WDF_REQUEST_TYPE`: the kind of a request, by the major function code (`IRP_MJ_*`) of its IRP.
use vstd::prelude::*;

verus! {

pub type Type = i32;

pub const WdfRequestTypeCreate: Type = 0x00;
pub const WdfRequestTypeCreateNamedPipe: Type = 0x01;
pub const WdfRequestTypeClose: Type = 0x02;
pub const WdfRequestTypeRead: Type = 0x03;
pub const WdfRequestTypeWrite: Type = 0x04;
pub const WdfRequestTypeQueryInformation: Type = 0x05;
pub const WdfRequestTypeSetInformation: Type = 0x06;
pub const WdfRequestTypeQueryEA: Type = 0x07;
pub const WdfRequestTypeSetEA: Type = 0x08;
pub const WdfRequestTypeFlushBuffers: Type = 0x09;
pub const WdfRequestTypeQueryVolumeInformation: Type = 0x0a;
pub const WdfRequestTypeSetVolumeInformation: Type = 0x0b;
pub const WdfRequestTypeDirectoryControl: Type = 0x0c;
pub const WdfRequestTypeFileSystemControl: Type = 0x0d;
pub const WdfRequestTypeDeviceControl: Type = 0x0e;
pub const WdfRequestTypeDeviceControlInternal: Type = 0x0f;
pub const WdfRequestTypeShutdown: Type = 0x10;
pub const WdfRequestTypeLockControl: Type = 0x11;
pub const WdfRequestTypeCleanup: Type = 0x12;
pub const WdfRequestTypeCreateMailSlot: Type = 0x13;
pub const WdfRequestTypeQuerySecurity: Type = 0x14;
pub const WdfRequestTypeSetSecurity: Type = 0x15;
pub const WdfRequestTypePower: Type = 0x16;
pub const WdfRequestTypeSystemControl: Type = 0x17;
pub const WdfRequestTypeDeviceChange: Type = 0x18;
pub const WdfRequestTypeQueryQuota: Type = 0x19;
pub const WdfRequestTypeSetQuota: Type = 0x1a;
pub const WdfRequestTypePnp: Type = 0x1b;
pub const WdfRequestTypeOther: Type = 0x1c;
pub const WdfRequestTypeUsb: Type = 0x40;
pub const WdfRequestTypeNoFormat: Type = 0xff;
pub const WdfRequestTypeMax: Type = 0x100;

} // verus!
