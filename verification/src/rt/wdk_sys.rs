//! A pure-Rust model of the Windows Driver Framework bindings.
//!
//! Kernel objects are opaque: the framework only ever hands out their
//! addresses. An address is modelled by [`Addr`], with `0` standing for the
//! null pointer; a framework callback is modelled by the address of its
//! entry point, and an absent callback by `None`.
#![allow(non_camel_case_types, non_snake_case, non_upper_case_globals)]

pub mod _WDF_EXECUTION_LEVEL;
pub mod _WDF_FILEOBJECT_CLASS;
pub mod _WDF_IO_QUEUE_DISPATCH_TYPE;
pub mod _WDF_IO_QUEUE_STATE;
pub mod _WDF_IO_TARGET_OPEN_TYPE;
pub mod _WDF_IO_TARGET_PURGE_IO_ACTION;
pub mod _WDF_IO_TARGET_SENT_IO_ACTION;
pub mod _WDF_IO_TARGET_STATE;
pub mod _WDF_REQUEST_REUSE_FLAGS;
pub mod _WDF_REQUEST_SEND_OPTIONS_FLAGS;
pub mod _WDF_REQUEST_STOP_ACTION_FLAGS;
pub mod _WDF_REQUEST_TYPE;
pub mod _WDF_SYNCHRONIZATION_SCOPE;
pub mod _WDF_TRI_STATE;

use vstd::prelude::*;

verus! {

/// The address of a kernel object, of a buffer or of a callback's entry point.
#[derive(Clone, Copy, Debug, PartialEq, Eq, Structural, Default)]
pub struct Addr(pub usize);

impl Addr {
    /// The null address.
    pub fn null() -> (r: Addr)
        ensures
            r.0 == 0,
    {
        Addr(0)
    }

    pub open spec fn spec_is_null(self) -> bool {
        self.0 == 0
    }

    /// Whether this is the null address.
    #[verifier::when_used_as_spec(spec_is_null)]
    pub fn is_null(self) -> (r: bool)
        ensures
            r == (self.0 == 0),
    {
        self.0 == 0
    }
}

// Scalar types.
pub type LONGLONG = i64;
pub type ULONG = u32;
pub type ULONG_PTR = usize;
pub type NTSTATUS = i32;
pub type BOOLEAN = u8;
pub type ACCESS_MASK = u32;
pub type WDF_IO_QUEUE_DISPATCH_TYPE = i32;
pub type WDF_TRI_STATE = i32;
pub type WDF_POWER_DEVICE_STATE = i32;
pub type WDF_EXECUTION_LEVEL = u32;
pub type WDF_SYNCHRONIZATION_SCOPE = u32;
pub type WDF_IO_TARGET_STATE = i32;
pub type WDF_IO_TARGET_OPEN_TYPE = i32;
pub type WDF_IO_TARGET_SENT_IO_ACTION = i32;
pub type WDF_FILEOBJECT_CLASS = i32;

// Pointers.
pub type HANDLE = Addr;
pub type PVOID = Addr;
pub type PLONGLONG = Addr;
pub type PFILE_OBJECT = Addr;
pub type DRIVER_OBJECT = Addr;
pub type PDRIVER_OBJECT = Addr;
pub type PDEVICE_OBJECT = Addr;
pub type PIRP = Addr;
pub type PWDFDEVICE_INIT = Addr;
pub type PCUNICODE_STRING = Addr;
pub type PWDF_OBJECT_CONTEXT_TYPE_INFO = Addr;
pub type PCWDF_OBJECT_CONTEXT_TYPE_INFO = Addr;
pub type PWDF_IO_TARGET_STATE = Addr;
pub type PWDF_IO_TARGET_OPEN_PARAMS = Addr;

// Framework handles.
pub type WDFOBJECT = Addr;
pub type WDFDEVICE = Addr;
pub type WDFDRIVER = Addr;
pub type WDFMEMORY = Addr;
pub type WDFREQUEST = Addr;
pub type WDFQUEUE = Addr;
pub type WDFIOTARGET = Addr;
pub type WDFCOLLECTION = Addr;
pub type WDFSTRING = Addr;

// Status codes.
pub const STATUS_SUCCESS: NTSTATUS = 0;
pub const STATUS_UNSUCCESSFUL: NTSTATUS = -1;
/// `0xC000000D`.
pub const STATUS_INVALID_PARAMETER: NTSTATUS = -1073741811;
/// `0xC000000E`.
pub const STATUS_INTERNAL_ERROR: NTSTATUS = -1073741810;

// Callbacks, each given by the address of its entry point.
pub type PFN_WDF_IO_QUEUE_IO_DEFAULT = Option<Addr>;
pub type PFN_WDF_IO_QUEUE_IO_READ = Option<Addr>;
pub type PFN_WDF_IO_QUEUE_IO_WRITE = Option<Addr>;
pub type PFN_WDF_IO_QUEUE_IO_DEVICE_CONTROL = Option<Addr>;
pub type PFN_WDF_IO_QUEUE_IO_INTERNAL_DEVICE_CONTROL = Option<Addr>;
pub type PFN_WDF_IO_QUEUE_IO_STOP = Option<Addr>;
pub type PFN_WDF_IO_QUEUE_IO_RESUME = Option<Addr>;
pub type PFN_WDF_IO_QUEUE_IO_CANCELED_ON_QUEUE = Option<Addr>;
pub type PFN_WDF_IO_TARGET_QUERY_REMOVE = Option<Addr>;
pub type PFN_WDF_IO_TARGET_REMOVE_CANCELED = Option<Addr>;
pub type PFN_WDF_IO_TARGET_REMOVE_COMPLETE = Option<Addr>;
pub type PFN_WDF_DEVICE_PREPARE_HARDWARE = Option<Addr>;
pub type PFN_WDF_DEVICE_RELEASE_HARDWARE = Option<Addr>;
pub type PFN_WDF_DEVICE_D0_ENTRY = Option<Addr>;
pub type PFN_WDF_DEVICE_D0_ENTRY_POST_INTERRUPTS_ENABLED = Option<Addr>;
pub type PFN_WDF_DEVICE_D0_EXIT = Option<Addr>;
pub type PFN_WDF_DEVICE_D0_EXIT_PRE_INTERRUPTS_DISABLED = Option<Addr>;
pub type PFN_WDF_DEVICE_SELF_MANAGED_IO_INIT = Option<Addr>;
pub type PFN_WDF_DEVICE_SELF_MANAGED_IO_FLUSH = Option<Addr>;
pub type PFN_WDF_DEVICE_SELF_MANAGED_IO_CLEANUP = Option<Addr>;
pub type PFN_WDF_DEVICE_SELF_MANAGED_IO_SUSPEND = Option<Addr>;
pub type PFN_WDF_DEVICE_SELF_MANAGED_IO_RESTART = Option<Addr>;
pub type PFN_WDF_DEVICE_SURPRISE_REMOVAL = Option<Addr>;
pub type PFN_WDF_DEVICE_QUERY_REMOVE = Option<Addr>;
pub type PFN_WDF_DEVICE_QUERY_STOP = Option<Addr>;
pub type PFN_WDF_DEVICE_USAGE_NOTIFICATION = Option<Addr>;
pub type PFN_WDF_DEVICE_USAGE_NOTIFICATION_EX = Option<Addr>;
pub type PFN_WDF_DEVICE_RELATIONS_QUERY = Option<Addr>;
pub type PFN_WDF_DEVICE_FILE_CREATE = Option<Addr>;
pub type PFN_WDF_FILE_CLOSE = Option<Addr>;
pub type PFN_WDF_FILE_CLEANUP = Option<Addr>;
pub type PFN_WDF_OBJECT_CONTEXT_CLEANUP = Option<Addr>;
pub type PFN_WDF_OBJECT_CONTEXT_DESTROY = Option<Addr>;
pub type PFN_WDF_DRIVER_DEVICE_ADD = Option<Addr>;
pub type PFN_WDF_DRIVER_UNLOAD = Option<Addr>;
pub type PFN_WDF_DRIVER_GET_UNIQUE_CONTEXT_TYPE = Option<Addr>;

// Opaque kernel objects.
#[derive(Default, Copy, Clone, Debug)]
pub struct _FILE_OBJECT {
    _priv: (),
}

#[derive(Default, Copy, Clone, Debug)]
pub struct _WDFDEVICE_INIT {
    _priv: (),
}

#[derive(Default, Copy, Clone, Debug)]
pub struct WDFDEVICE_INIT {
    _priv: (),
}

#[derive(Default, Copy, Clone, Debug)]
pub struct _DRIVER_OBJECT {
    _priv: (),
}

#[derive(Default, Copy, Clone, Debug)]
pub struct DRIVER_OBJECT__ {
    _priv: (),
}

#[derive(Default, Copy, Clone, Debug)]
pub struct DEVICE_OBJECT__ {
    _priv: (),
}

#[derive(Default, Copy, Clone, Debug)]
pub struct IRP__ {
    _priv: (),
}

#[derive(Default, Copy, Clone, Debug)]
pub struct DEVICE_INIT {
    _priv: (),
}

#[derive(Default, Copy, Clone, Debug)]
pub struct WDFOBJECT__ {
    _priv: (),
}

#[derive(Default, Copy, Clone, Debug)]
pub struct WDFDEVICE__ {
    _priv: (),
}

#[derive(Default, Copy, Clone, Debug)]
pub struct WDFDRIVER__ {
    _priv: (),
}

#[derive(Default, Copy, Clone, Debug)]
pub struct WDFMEMORY__ {
    _priv: (),
}

#[derive(Default, Copy, Clone, Debug)]
pub struct WDFREQUEST__ {
    _priv: (),
}

#[derive(Default, Copy, Clone, Debug)]
pub struct WDFQUEUE__ {
    _priv: (),
}

#[derive(Default, Copy, Clone, Debug)]
pub struct WDFIOTARGET__ {
    _priv: (),
}

#[derive(Default, Copy, Clone, Debug)]
pub struct WDFCOLLECTION__ {
    _priv: (),
}

#[derive(Default, Copy, Clone, Debug)]
pub struct WDFSTRING__ {
    _priv: (),
}

/// A counted UTF-16 string.
#[derive(Default, Copy, Clone, Debug)]
pub struct UNICODE_STRING {
    pub Length: u16,
    pub MaximumLength: u16,
    pub Buffer: Addr,
}

/// `WDF_REQUEST_SEND_OPTIONS`.
#[derive(Default, Copy, Clone, Debug)]
pub struct WDF_REQUEST_SEND_OPTIONS {
    pub Size: ULONG,
    pub Flags: ULONG,
    pub Timeout: LONGLONG,
}

/// `WDF_PNPPOWER_EVENT_CALLBACKS`.
#[derive(Default, Copy, Clone, Debug)]
pub struct WDF_PNPPOWER_EVENT_CALLBACKS {
    pub Size: ULONG,
    pub EvtDevicePrepareHardware: PFN_WDF_DEVICE_PREPARE_HARDWARE,
    pub EvtDeviceReleaseHardware: PFN_WDF_DEVICE_RELEASE_HARDWARE,
    pub EvtDeviceD0Entry: PFN_WDF_DEVICE_D0_ENTRY,
    pub EvtDeviceD0EntryPostInterruptsEnabled: PFN_WDF_DEVICE_D0_ENTRY_POST_INTERRUPTS_ENABLED,
    pub EvtDeviceD0Exit: PFN_WDF_DEVICE_D0_EXIT,
    pub EvtDeviceD0ExitPreInterruptsDisabled: PFN_WDF_DEVICE_D0_EXIT_PRE_INTERRUPTS_DISABLED,
    pub EvtDeviceSelfManagedIoInit: PFN_WDF_DEVICE_SELF_MANAGED_IO_INIT,
    pub EvtDeviceSelfManagedIoSuspend: PFN_WDF_DEVICE_SELF_MANAGED_IO_SUSPEND,
    pub EvtDeviceSelfManagedIoRestart: PFN_WDF_DEVICE_SELF_MANAGED_IO_RESTART,
    pub EvtDeviceSelfManagedIoFlush: PFN_WDF_DEVICE_SELF_MANAGED_IO_FLUSH,
    pub EvtDeviceSelfManagedIoCleanup: PFN_WDF_DEVICE_SELF_MANAGED_IO_CLEANUP,
    pub EvtDeviceSurpriseRemoval: PFN_WDF_DEVICE_SURPRISE_REMOVAL,
    pub EvtDeviceQueryRemove: PFN_WDF_DEVICE_QUERY_REMOVE,
    pub EvtDeviceQueryStop: PFN_WDF_DEVICE_QUERY_STOP,
    pub EvtDeviceUsageNotification: PFN_WDF_DEVICE_USAGE_NOTIFICATION,
    pub EvtDeviceRelationsQuery: PFN_WDF_DEVICE_RELATIONS_QUERY,
    pub EvtDeviceUsageNotificationEx: PFN_WDF_DEVICE_USAGE_NOTIFICATION_EX,
}

/// The queue-type specific settings of `WDF_IO_QUEUE_CONFIG`.
pub union _WDF_IO_QUEUE_CONFIG__bindgen_ty_1 {
    pub Parallel: ULONG,
    pub Sequential: ULONG,
    pub Manual: ULONG,
}

impl Clone for _WDF_IO_QUEUE_CONFIG__bindgen_ty_1 {
    fn clone(&self) -> (r: Self)
        ensures
            r == *self,
    {
        *self
    }
}

impl Copy for _WDF_IO_QUEUE_CONFIG__bindgen_ty_1 {

}

impl Default for _WDF_IO_QUEUE_CONFIG__bindgen_ty_1 {
    fn default() -> (r: Self)
        ensures
            is_variant(r, "Parallel"),
            get_union_field::<_WDF_IO_QUEUE_CONFIG__bindgen_ty_1, ULONG>(r, "Parallel") == 0,
    {
        Self { Parallel: 0 }
    }
}

/// `WDF_IO_QUEUE_CONFIG`.
#[derive(Copy, Clone)]
pub struct WDF_IO_QUEUE_CONFIG {
    pub Size: ULONG,
    pub DispatchType: WDF_IO_QUEUE_DISPATCH_TYPE,
    pub PowerManaged: WDF_TRI_STATE,
    pub AllowZeroLengthRequests: BOOLEAN,
    pub DefaultQueue: BOOLEAN,
    pub EvtIoDefault: PFN_WDF_IO_QUEUE_IO_DEFAULT,
    pub EvtIoRead: PFN_WDF_IO_QUEUE_IO_READ,
    pub EvtIoWrite: PFN_WDF_IO_QUEUE_IO_WRITE,
    pub EvtIoDeviceControl: PFN_WDF_IO_QUEUE_IO_DEVICE_CONTROL,
    pub EvtIoInternalDeviceControl: PFN_WDF_IO_QUEUE_IO_INTERNAL_DEVICE_CONTROL,
    pub EvtIoStop: PFN_WDF_IO_QUEUE_IO_STOP,
    pub EvtIoResume: PFN_WDF_IO_QUEUE_IO_RESUME,
    pub EvtIoCanceledOnQueue: PFN_WDF_IO_QUEUE_IO_CANCELED_ON_QUEUE,
    pub Settings: _WDF_IO_QUEUE_CONFIG__bindgen_ty_1,
    pub Driver: WDFDRIVER,
}

impl Default for WDF_IO_QUEUE_CONFIG {
    /// An unsized configuration with an invalid dispatch type, the default
    /// power management, no flags, no callbacks and no driver.
    fn default() -> (r: Self)
        ensures
            r.Size == 0,
            r.DispatchType == _WDF_IO_QUEUE_DISPATCH_TYPE::WdfIoQueueDispatchInvalid,
            r.PowerManaged == _WDF_TRI_STATE::WdfUseDefault,
            r.AllowZeroLengthRequests == 0,
            r.DefaultQueue == 0,
            r.EvtIoDefault is None,
            r.EvtIoRead is None,
            r.EvtIoWrite is None,
            r.EvtIoDeviceControl is None,
            r.EvtIoInternalDeviceControl is None,
            r.EvtIoStop is None,
            r.EvtIoResume is None,
            r.EvtIoCanceledOnQueue is None,
            is_variant(r.Settings, "Parallel"),
            get_union_field::<_WDF_IO_QUEUE_CONFIG__bindgen_ty_1, ULONG>(r.Settings, "Parallel") == 0,
            r.Driver.0 == 0,
    {
        Self {
            Size: 0,
            DispatchType: _WDF_IO_QUEUE_DISPATCH_TYPE::WdfIoQueueDispatchInvalid,
            PowerManaged: _WDF_TRI_STATE::WdfUseDefault,
            AllowZeroLengthRequests: 0,
            DefaultQueue: 0,
            EvtIoDefault: None,
            EvtIoRead: None,
            EvtIoWrite: None,
            EvtIoDeviceControl: None,
            EvtIoInternalDeviceControl: None,
            EvtIoStop: None,
            EvtIoResume: None,
            EvtIoCanceledOnQueue: None,
            Settings: _WDF_IO_QUEUE_CONFIG__bindgen_ty_1::default(),
            Driver: Addr::null(),
        }
    }
}

/// `WDF_OBJECT_CONTEXT_TYPE_INFO`.
#[derive(Default, Copy, Clone, Debug)]
pub struct WDF_OBJECT_CONTEXT_TYPE_INFO {
    pub Size: ULONG,
    pub ContextSize: usize,
    pub ContextName: Addr,
    pub UniqueType: PCWDF_OBJECT_CONTEXT_TYPE_INFO,
    pub EvtDriverGetUniqueContextType: PFN_WDF_DRIVER_GET_UNIQUE_CONTEXT_TYPE,
}

/// `WDF_OBJECT_ATTRIBUTES`.
#[derive(Default, Copy, Clone, Debug)]
pub struct WDF_OBJECT_ATTRIBUTES {
    pub Size: ULONG,
    pub EvtCleanupCallback: PFN_WDF_OBJECT_CONTEXT_CLEANUP,
    pub EvtDestroyCallback: PFN_WDF_OBJECT_CONTEXT_DESTROY,
    pub ExecutionLevel: WDF_EXECUTION_LEVEL,
    pub SynchronizationScope: WDF_SYNCHRONIZATION_SCOPE,
    pub ParentObject: WDFOBJECT,
    pub ContextTypeInfo: PCWDF_OBJECT_CONTEXT_TYPE_INFO,
}

/// `WDF_DRIVER_CONFIG`.
#[derive(Default, Copy, Clone, Debug)]
pub struct WDF_DRIVER_CONFIG {
    pub Size: ULONG,
    pub EvtDriverDeviceAdd: PFN_WDF_DRIVER_DEVICE_ADD,
    pub EvtDriverUnload: PFN_WDF_DRIVER_UNLOAD,
    pub DriverInitFlags: ULONG,
    pub DriverPoolTag: ULONG,
}

/// `WDF_FILEOBJECT_CONFIG`.
#[derive(Default, Copy, Clone, Debug)]
pub struct WDF_FILEOBJECT_CONFIG {
    pub Size: ULONG,
    pub EvtDeviceFileCreate: PFN_WDF_DEVICE_FILE_CREATE,
    pub EvtFileClose: PFN_WDF_FILE_CLOSE,
    pub EvtFileCleanup: PFN_WDF_FILE_CLEANUP,
    pub AutoForwardCleanupClose: WDF_TRI_STATE,
    pub FileObjectClass: WDF_FILEOBJECT_CLASS,
}

/// The kinds of buffer that a `WDF_MEMORY_DESCRIPTOR` can describe.
#[derive(Copy, Clone, Debug, PartialEq, Eq, Structural)]
pub enum _WDF_MEMORY_DESCRIPTOR_TYPE {
    WdfMemoryDescriptorTypeInvalid,
    WdfMemoryDescriptorTypeBuffer,
    WdfMemoryDescriptorTypeMdl,
    WdfMemoryDescriptorTypeHandle,
}

/// A plain buffer: its address and its length in bytes.
#[derive(Copy, Clone, Debug)]
pub struct _WDF_MEMORY_DESCRIPTOR__bindgen_ty_1__bindgen_ty_1 {
    pub Buffer: PVOID,
    pub Length: ULONG,
}

/// The buffer part of a `WDF_MEMORY_DESCRIPTOR`.
#[derive(Copy, Clone, Debug)]
pub struct _WDF_MEMORY_DESCRIPTOR__bindgen_ty_1 {
    pub BufferType: _WDF_MEMORY_DESCRIPTOR__bindgen_ty_1__bindgen_ty_1,
}

impl Default for _WDF_MEMORY_DESCRIPTOR__bindgen_ty_1 {
    /// A null buffer of length zero.
    fn default() -> (r: Self)
        ensures
            r.BufferType.Buffer.0 == 0,
            r.BufferType.Length == 0,
    {
        Self {
            BufferType: _WDF_MEMORY_DESCRIPTOR__bindgen_ty_1__bindgen_ty_1 {
                Buffer: Addr::null(),
                Length: 0,
            },
        }
    }
}

/// `WDF_MEMORY_DESCRIPTOR`.
#[derive(Copy, Clone, Debug)]
pub struct WDF_MEMORY_DESCRIPTOR {
    pub Type: _WDF_MEMORY_DESCRIPTOR_TYPE,
    pub u: _WDF_MEMORY_DESCRIPTOR__bindgen_ty_1,
}

impl Default for WDF_MEMORY_DESCRIPTOR {
    /// An invalid descriptor of a null buffer of length zero.
    fn default() -> (r: Self)
        ensures
            r.Type == _WDF_MEMORY_DESCRIPTOR_TYPE::WdfMemoryDescriptorTypeInvalid,
            r.u.BufferType.Buffer.0 == 0,
            r.u.BufferType.Length == 0,
    {
        Self {
            Type: _WDF_MEMORY_DESCRIPTOR_TYPE::WdfMemoryDescriptorTypeInvalid,
            u: _WDF_MEMORY_DESCRIPTOR__bindgen_ty_1::default(),
        }
    }
}

} // verus!
