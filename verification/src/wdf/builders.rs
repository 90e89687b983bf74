//! Configurations of framework objects, each of which builds the native
//! framework descriptor it stands for, with the `Size` field filled in.
use core::marker::PhantomData;

use vstd::prelude::*;

use crate::ctx::WdfCtxNoneDesc;
use crate::op::{AsBuilder, AsCtxDescriptor};
use crate::rt::wdk_sys::{
    _WDF_IO_QUEUE_CONFIG__bindgen_ty_1, Addr, ACCESS_MASK, BOOLEAN, LONGLONG, PCUNICODE_STRING,
    PDEVICE_OBJECT, PFILE_OBJECT, PFN_WDF_DEVICE_D0_ENTRY,
    PFN_WDF_DEVICE_D0_ENTRY_POST_INTERRUPTS_ENABLED, PFN_WDF_DEVICE_D0_EXIT,
    PFN_WDF_DEVICE_D0_EXIT_PRE_INTERRUPTS_DISABLED, PFN_WDF_DEVICE_FILE_CREATE,
    PFN_WDF_DEVICE_PREPARE_HARDWARE, PFN_WDF_DEVICE_QUERY_REMOVE, PFN_WDF_DEVICE_QUERY_STOP,
    PFN_WDF_DEVICE_RELATIONS_QUERY, PFN_WDF_DEVICE_RELEASE_HARDWARE,
    PFN_WDF_DEVICE_SELF_MANAGED_IO_CLEANUP, PFN_WDF_DEVICE_SELF_MANAGED_IO_FLUSH,
    PFN_WDF_DEVICE_SELF_MANAGED_IO_INIT, PFN_WDF_DEVICE_SELF_MANAGED_IO_RESTART,
    PFN_WDF_DEVICE_SELF_MANAGED_IO_SUSPEND, PFN_WDF_DEVICE_SURPRISE_REMOVAL,
    PFN_WDF_DEVICE_USAGE_NOTIFICATION, PFN_WDF_DEVICE_USAGE_NOTIFICATION_EX,
    PFN_WDF_DRIVER_DEVICE_ADD, PFN_WDF_DRIVER_UNLOAD, PFN_WDF_FILE_CLEANUP, PFN_WDF_FILE_CLOSE,
    PFN_WDF_IO_QUEUE_IO_CANCELED_ON_QUEUE, PFN_WDF_IO_QUEUE_IO_DEFAULT,
    PFN_WDF_IO_QUEUE_IO_DEVICE_CONTROL, PFN_WDF_IO_QUEUE_IO_INTERNAL_DEVICE_CONTROL,
    PFN_WDF_IO_QUEUE_IO_READ, PFN_WDF_IO_QUEUE_IO_RESUME, PFN_WDF_IO_QUEUE_IO_STOP,
    PFN_WDF_IO_QUEUE_IO_WRITE, PFN_WDF_IO_TARGET_QUERY_REMOVE,
    PFN_WDF_IO_TARGET_REMOVE_CANCELED, PFN_WDF_IO_TARGET_REMOVE_COMPLETE,
    PFN_WDF_OBJECT_CONTEXT_CLEANUP, PFN_WDF_OBJECT_CONTEXT_DESTROY, PLONGLONG, PVOID, ULONG,
    UNICODE_STRING, WDFDRIVER, WDF_DRIVER_CONFIG, WDF_EXECUTION_LEVEL, WDF_FILEOBJECT_CONFIG,
    WDF_IO_QUEUE_CONFIG, WDF_OBJECT_ATTRIBUTES, WDF_PNPPOWER_EVENT_CALLBACKS,
    WDF_REQUEST_SEND_OPTIONS, WDF_SYNCHRONIZATION_SCOPE, WDF_TRI_STATE,
};
use crate::rt::wdk_sys::_WDF_REQUEST_SEND_OPTIONS_FLAGS;
use crate::vals::{
    WdfExecutionLevel, WdfFileObjClass, WdfIoQueueDispatchType, WdfIoTargetOpenType,
    WdfRequestSendOptionsFlags, WdfSyncScope, WdfTriState,
};

verus! {

/// An IOCTL command code.
pub type IoCtlCommand = u32;

/// The `Size` that a framework descriptor of type `T` carries: its size in
/// bytes as a `ULONG`.
pub open spec fn ulong_size_of<T>() -> ULONG {
    #[verifier::truncate] (vstd::layout::size_of::<T>() as ULONG)
}

/// The size in bytes of the framework descriptor type `T`, as the `ULONG`
/// that its `Size` field holds.
pub fn size_of_as_ulong<T>() -> (r: ULONG)
    ensures
        r == ulong_size_of::<T>(),
{
    #[verifier::truncate] (core::mem::size_of::<T>() as ULONG)
}

/// The callbacks and settings of a driver.
pub struct WdfDriverSetup {
    pub on_device_add: PFN_WDF_DRIVER_DEVICE_ADD,
    pub on_driver_unload: PFN_WDF_DRIVER_UNLOAD,
    pub init_flags: ULONG,
    pub pool_tag: ULONG,
}

impl Default for WdfDriverSetup {
    /// No callbacks, no flags and no pool tag.
    fn default() -> (r: Self)
        ensures
            r.on_device_add is None,
            r.on_driver_unload is None,
            r.init_flags == 0,
            r.pool_tag == 0,
    {
        WdfDriverSetup { on_device_add: None, on_driver_unload: None, init_flags: 0, pool_tag: 0 }
    }
}

/// How an I/O target is opened.
pub struct WdfIoTargetOpenParams {
    open_type: WdfIoTargetOpenType,
    on_query_remove: PFN_WDF_IO_TARGET_QUERY_REMOVE,
    on_remove_canceled: PFN_WDF_IO_TARGET_REMOVE_CANCELED,
    on_remove_complete: PFN_WDF_IO_TARGET_REMOVE_COMPLETE,
    target_device_obj: Option<PDEVICE_OBJECT>,
    p_file_object: PFILE_OBJECT,
    target_device_name: Option<UNICODE_STRING>,
    desired_access: Option<ACCESS_MASK>,
    share_access: Option<ULONG>,
    file_attrs: Option<ULONG>,
    create_disposition: Option<ULONG>,
    create_options: Option<ULONG>,
    ea_buffer: Option<PVOID>,
    ea_buffer_length: Option<ULONG>,
    allocation_size: Option<PLONGLONG>,
    file_info: Option<ULONG>,
    file_name: Option<UNICODE_STRING>,
}

/// The configuration of a driver object.
pub struct WdfDriverConf {
    pub setup: WdfDriverSetup,
    pub registry_path: PCUNICODE_STRING,
}

impl WdfDriverConf {
    /// The default driver setup, for the driver whose registry key is at
    /// `registry_path`.
    pub fn from_registry_path(registry_path: PCUNICODE_STRING) -> (r: Self)
        ensures
            r.registry_path == registry_path,
            r.setup.on_device_add is None,
            r.setup.on_driver_unload is None,
            r.setup.init_flags == 0,
            r.setup.pool_tag == 0,
    {
        Self { setup: WdfDriverSetup::default(), registry_path }
    }
}

impl AsBuilder for WdfDriverConf {
    type Descriptor = WDF_DRIVER_CONFIG;

    fn build(&self) -> (r: WDF_DRIVER_CONFIG)
        ensures
            r.Size == ulong_size_of::<WDF_DRIVER_CONFIG>(),
            r.EvtDriverDeviceAdd == self.setup.on_device_add,
            r.EvtDriverUnload == self.setup.on_driver_unload,
            r.DriverInitFlags == self.setup.init_flags,
            r.DriverPoolTag == self.setup.pool_tag,
    {
        WDF_DRIVER_CONFIG {
            Size: size_of_as_ulong::<WDF_DRIVER_CONFIG>(),
            EvtDriverDeviceAdd: self.setup.on_device_add,
            EvtDriverUnload: self.setup.on_driver_unload,
            DriverInitFlags: self.setup.init_flags,
            DriverPoolTag: self.setup.pool_tag,
        }
    }
}

/// The Plug and Play and power callbacks of a device.
pub struct WdfDevicePnpPowerSetup {
    pub on_device_hw_prepare: PFN_WDF_DEVICE_PREPARE_HARDWARE,
    pub on_device_hw_release: PFN_WDF_DEVICE_RELEASE_HARDWARE,
    pub on_device_d0_entry: PFN_WDF_DEVICE_D0_ENTRY,
    pub on_device_d0_entry_post_interrupts_enabled: PFN_WDF_DEVICE_D0_ENTRY_POST_INTERRUPTS_ENABLED,
    pub on_device_d0_exit: PFN_WDF_DEVICE_D0_EXIT,
    pub on_device_d0_exit_pre_interrupts_disabled: PFN_WDF_DEVICE_D0_EXIT_PRE_INTERRUPTS_DISABLED,
    pub on_device_self_managed_io_init: PFN_WDF_DEVICE_SELF_MANAGED_IO_INIT,
    pub on_device_self_managed_io_flush: PFN_WDF_DEVICE_SELF_MANAGED_IO_FLUSH,
    pub on_device_self_managed_io_cleanup: PFN_WDF_DEVICE_SELF_MANAGED_IO_CLEANUP,
    pub on_device_self_managed_io_suspend: PFN_WDF_DEVICE_SELF_MANAGED_IO_SUSPEND,
    pub on_device_self_managed_io_restart: PFN_WDF_DEVICE_SELF_MANAGED_IO_RESTART,
    pub on_device_surprise_removal: PFN_WDF_DEVICE_SURPRISE_REMOVAL,
    pub on_device_query_remove: PFN_WDF_DEVICE_QUERY_REMOVE,
    pub on_device_query_stop: PFN_WDF_DEVICE_QUERY_STOP,
    pub on_device_usage_notification: PFN_WDF_DEVICE_USAGE_NOTIFICATION,
    pub on_device_usage_notification_ex: PFN_WDF_DEVICE_USAGE_NOTIFICATION_EX,
    pub on_device_relations_query: PFN_WDF_DEVICE_RELATIONS_QUERY,
}

impl Default for WdfDevicePnpPowerSetup {
    /// No callbacks.
    fn default() -> (r: Self)
        ensures
            r.on_device_hw_prepare is None,
            r.on_device_hw_release is None,
            r.on_device_d0_entry is None,
            r.on_device_d0_entry_post_interrupts_enabled is None,
            r.on_device_d0_exit is None,
            r.on_device_d0_exit_pre_interrupts_disabled is None,
            r.on_device_self_managed_io_init is None,
            r.on_device_self_managed_io_flush is None,
            r.on_device_self_managed_io_cleanup is None,
            r.on_device_self_managed_io_suspend is None,
            r.on_device_self_managed_io_restart is None,
            r.on_device_surprise_removal is None,
            r.on_device_query_remove is None,
            r.on_device_query_stop is None,
            r.on_device_usage_notification is None,
            r.on_device_usage_notification_ex is None,
            r.on_device_relations_query is None,
    {
        WdfDevicePnpPowerSetup {
            on_device_hw_prepare: None,
            on_device_hw_release: None,
            on_device_d0_entry: None,
            on_device_d0_entry_post_interrupts_enabled: None,
            on_device_d0_exit: None,
            on_device_d0_exit_pre_interrupts_disabled: None,
            on_device_self_managed_io_init: None,
            on_device_self_managed_io_flush: None,
            on_device_self_managed_io_cleanup: None,
            on_device_self_managed_io_suspend: None,
            on_device_self_managed_io_restart: None,
            on_device_surprise_removal: None,
            on_device_query_remove: None,
            on_device_query_stop: None,
            on_device_usage_notification: None,
            on_device_usage_notification_ex: None,
            on_device_relations_query: None,
        }
    }
}

impl AsBuilder for WdfDevicePnpPowerSetup {
    type Descriptor = WDF_PNPPOWER_EVENT_CALLBACKS;

    #[inline]
    fn build(&self) -> (r: WDF_PNPPOWER_EVENT_CALLBACKS)
        ensures
            r.Size == ulong_size_of::<WDF_PNPPOWER_EVENT_CALLBACKS>(),
            r.EvtDevicePrepareHardware == self.on_device_hw_prepare,
            r.EvtDeviceReleaseHardware == self.on_device_hw_release,
            r.EvtDeviceD0Entry == self.on_device_d0_entry,
            r.EvtDeviceD0EntryPostInterruptsEnabled == self.on_device_d0_entry_post_interrupts_enabled,
            r.EvtDeviceD0Exit == self.on_device_d0_exit,
            r.EvtDeviceD0ExitPreInterruptsDisabled == self.on_device_d0_exit_pre_interrupts_disabled,
            r.EvtDeviceSelfManagedIoInit == self.on_device_self_managed_io_init,
            r.EvtDeviceSelfManagedIoFlush == self.on_device_self_managed_io_flush,
            r.EvtDeviceSelfManagedIoCleanup == self.on_device_self_managed_io_cleanup,
            r.EvtDeviceSelfManagedIoSuspend == self.on_device_self_managed_io_suspend,
            r.EvtDeviceSelfManagedIoRestart == self.on_device_self_managed_io_restart,
            r.EvtDeviceSurpriseRemoval == self.on_device_surprise_removal,
            r.EvtDeviceQueryRemove == self.on_device_query_remove,
            r.EvtDeviceQueryStop == self.on_device_query_stop,
            r.EvtDeviceUsageNotification == self.on_device_usage_notification,
            r.EvtDeviceUsageNotificationEx == self.on_device_usage_notification_ex,
            r.EvtDeviceRelationsQuery == self.on_device_relations_query,
    {
        WDF_PNPPOWER_EVENT_CALLBACKS {
            Size: size_of_as_ulong::<WDF_PNPPOWER_EVENT_CALLBACKS>(),
            EvtDevicePrepareHardware: self.on_device_hw_prepare,
            EvtDeviceReleaseHardware: self.on_device_hw_release,
            EvtDeviceD0Entry: self.on_device_d0_entry,
            EvtDeviceD0EntryPostInterruptsEnabled: self.on_device_d0_entry_post_interrupts_enabled,
            EvtDeviceD0Exit: self.on_device_d0_exit,
            EvtDeviceD0ExitPreInterruptsDisabled: self.on_device_d0_exit_pre_interrupts_disabled,
            EvtDeviceSelfManagedIoInit: self.on_device_self_managed_io_init,
            EvtDeviceSelfManagedIoFlush: self.on_device_self_managed_io_flush,
            EvtDeviceSelfManagedIoCleanup: self.on_device_self_managed_io_cleanup,
            EvtDeviceSelfManagedIoSuspend: self.on_device_self_managed_io_suspend,
            EvtDeviceSelfManagedIoRestart: self.on_device_self_managed_io_restart,
            EvtDeviceSurpriseRemoval: self.on_device_surprise_removal,
            EvtDeviceQueryRemove: self.on_device_query_remove,
            EvtDeviceQueryStop: self.on_device_query_stop,
            EvtDeviceUsageNotification: self.on_device_usage_notification,
            EvtDeviceUsageNotificationEx: self.on_device_usage_notification_ex,
            EvtDeviceRelationsQuery: self.on_device_relations_query,
        }
    }
}

/// The configuration of an I/O queue.
pub struct WdfIoQueueConfig {
    pub dispatch_type: WdfIoQueueDispatchType,
    pub power_managed: WdfTriState,
    pub allow_zero_length_requests: bool,
    pub default_queue: bool,
    pub on_io_default: PFN_WDF_IO_QUEUE_IO_DEFAULT,
    pub on_io_read: PFN_WDF_IO_QUEUE_IO_READ,
    pub on_io_write: PFN_WDF_IO_QUEUE_IO_WRITE,
    pub on_io_device_control: PFN_WDF_IO_QUEUE_IO_DEVICE_CONTROL,
    pub on_io_internal_device_control: PFN_WDF_IO_QUEUE_IO_INTERNAL_DEVICE_CONTROL,
    pub on_io_stop: PFN_WDF_IO_QUEUE_IO_STOP,
    pub on_io_resume: PFN_WDF_IO_QUEUE_IO_RESUME,
    pub on_io_canceled_on_queue: PFN_WDF_IO_QUEUE_IO_CANCELED_ON_QUEUE,
    pub settings: _WDF_IO_QUEUE_CONFIG__bindgen_ty_1,
    pub driver: WDFDRIVER,
}

impl Default for WdfIoQueueConfig {
    /// A sequential queue whose power management is left to the framework,
    /// with no flags, no callbacks, zeroed settings and no driver.
    fn default() -> (r: Self)
        ensures
            r.dispatch_type == WdfIoQueueDispatchType::Sequential,
            r.power_managed == WdfTriState::Default,
            !r.allow_zero_length_requests,
            !r.default_queue,
            r.on_io_default is None,
            r.on_io_read is None,
            r.on_io_write is None,
            r.on_io_device_control is None,
            r.on_io_internal_device_control is None,
            r.on_io_stop is None,
            r.on_io_resume is None,
            r.on_io_canceled_on_queue is None,
            is_variant(r.settings, "Parallel"),
            get_union_field::<_WDF_IO_QUEUE_CONFIG__bindgen_ty_1, ULONG>(r.settings, "Parallel") == 0,
            r.driver.0 == 0,
    {
        Self {
            dispatch_type: WdfIoQueueDispatchType::Sequential,
            power_managed: WdfTriState::default(),
            allow_zero_length_requests: false,
            default_queue: false,
            on_io_default: None,
            on_io_read: None,
            on_io_write: None,
            on_io_device_control: None,
            on_io_internal_device_control: None,
            on_io_stop: None,
            on_io_resume: None,
            on_io_canceled_on_queue: None,
            settings: _WDF_IO_QUEUE_CONFIG__bindgen_ty_1::default(),
            driver: Addr::null(),
        }
    }
}

/// A flag as the framework's `BOOLEAN`.
pub open spec fn boolean_of(b: bool) -> BOOLEAN {
    if b {
        1
    } else {
        0
    }
}

fn to_boolean(b: bool) -> (r: BOOLEAN)
    ensures
        r == boolean_of(b),
{
    if b {
        1
    } else {
        0
    }
}

impl AsBuilder for WdfIoQueueConfig {
    type Descriptor = WDF_IO_QUEUE_CONFIG;

    fn build(&self) -> (r: WDF_IO_QUEUE_CONFIG)
        ensures
            r.Size == ulong_size_of::<WDF_IO_QUEUE_CONFIG>(),
            r.DispatchType == self.dispatch_type.primitive(),
            r.PowerManaged == self.power_managed.primitive(),
            r.AllowZeroLengthRequests == boolean_of(self.allow_zero_length_requests),
            r.DefaultQueue == boolean_of(self.default_queue),
            r.EvtIoDefault == self.on_io_default,
            r.EvtIoRead == self.on_io_read,
            r.EvtIoWrite == self.on_io_write,
            r.EvtIoDeviceControl == self.on_io_device_control,
            r.EvtIoInternalDeviceControl == self.on_io_internal_device_control,
            r.EvtIoStop == self.on_io_stop,
            r.EvtIoResume == self.on_io_resume,
            r.EvtIoCanceledOnQueue == self.on_io_canceled_on_queue,
            r.Settings == self.settings,
            r.Driver == self.driver,
    {
        WDF_IO_QUEUE_CONFIG {
            Size: size_of_as_ulong::<WDF_IO_QUEUE_CONFIG>(),
            DispatchType: i32::from(self.dispatch_type),
            PowerManaged: i32::from(self.power_managed),
            AllowZeroLengthRequests: to_boolean(self.allow_zero_length_requests),
            DefaultQueue: to_boolean(self.default_queue),
            EvtIoDefault: self.on_io_default,
            EvtIoRead: self.on_io_read,
            EvtIoWrite: self.on_io_write,
            EvtIoDeviceControl: self.on_io_device_control,
            EvtIoInternalDeviceControl: self.on_io_internal_device_control,
            EvtIoStop: self.on_io_stop,
            EvtIoResume: self.on_io_resume,
            EvtIoCanceledOnQueue: self.on_io_canceled_on_queue,
            Settings: self.settings,
            Driver: self.driver,
        }
    }
}

/// The attributes of a framework object, whose context is described by `D`.
pub struct WdfObjAttrs<D: AsCtxDescriptor = WdfCtxNoneDesc> {
    pub on_cleanup: PFN_WDF_OBJECT_CONTEXT_CLEANUP,
    pub on_destroy: PFN_WDF_OBJECT_CONTEXT_DESTROY,
    pub sync_scope: WdfSyncScope,
    pub execution_level: WdfExecutionLevel,
    pub parent_obj: Option<Addr>,
    pub _descriptor: PhantomData<D>,
}

impl<D: AsCtxDescriptor> AsBuilder for WdfObjAttrs<D> {
    type Descriptor = WDF_OBJECT_ATTRIBUTES;

    fn build(&self) -> (r: WDF_OBJECT_ATTRIBUTES)
        ensures
            r.Size == ulong_size_of::<WDF_OBJECT_ATTRIBUTES>(),
            r.ExecutionLevel == self.execution_level.primitive() as WDF_EXECUTION_LEVEL,
            r.SynchronizationScope == self.sync_scope.primitive() as WDF_SYNCHRONIZATION_SCOPE,
            r.EvtCleanupCallback == self.on_cleanup,
            r.EvtDestroyCallback == self.on_destroy,
            r.ParentObject == (match self.parent_obj {
                Some(parent) => parent,
                None => Addr(0),
            }),
            r.ContextTypeInfo == (match D::context_type_info() {
                Some(info) => info,
                None => Addr(0),
            }),
    {
        let parent = match self.parent_obj {
            Some(parent) => parent,
            None => Addr::null(),
        };
        let unique = match D::descriptor() {
            Some(info) => info,
            None => Addr::null(),
        };

        WDF_OBJECT_ATTRIBUTES {
            Size: size_of_as_ulong::<WDF_OBJECT_ATTRIBUTES>(),
            ExecutionLevel: i32::from(self.execution_level) as WDF_EXECUTION_LEVEL,
            SynchronizationScope: i32::from(self.sync_scope) as WDF_SYNCHRONIZATION_SCOPE,
            EvtCleanupCallback: self.on_cleanup,
            EvtDestroyCallback: self.on_destroy,
            ParentObject: parent,
            ContextTypeInfo: unique,
        }
    }
}

impl<D: AsCtxDescriptor> Default for WdfObjAttrs<D> {
    /// No callbacks, no synchronization, the parent's execution level and no
    /// parent.
    fn default() -> (r: Self)
        ensures
            r.sync_scope == WdfSyncScope::ScopeNone,
            r.execution_level == WdfExecutionLevel::Inherit,
            r.parent_obj is None,
            r.on_cleanup is None,
            r.on_destroy is None,
    {
        Self {
            sync_scope: WdfSyncScope::ScopeNone,
            execution_level: WdfExecutionLevel::Inherit,
            parent_obj: None,
            on_cleanup: None,
            on_destroy: None,
            _descriptor: PhantomData,
        }
    }
}

impl<D: AsCtxDescriptor> WdfObjAttrs<D> {
    /// The same attributes with the synchronization scope `sync_scope`.
    #[must_use]
    pub fn with_sync_scope(self, sync_scope: WdfSyncScope) -> (r: Self)
        ensures
            r.sync_scope == sync_scope,
            r.execution_level == self.execution_level,
            r.parent_obj == self.parent_obj,
            r.on_cleanup == self.on_cleanup,
            r.on_destroy == self.on_destroy,
    {
        let mut attrs = self;
        attrs.sync_scope = sync_scope;
        attrs
    }

    /// The same attributes with the execution level `execution_level`.
    #[must_use]
    pub fn with_execution_level(self, execution_level: WdfExecutionLevel) -> (r: Self)
        ensures
            r.sync_scope == self.sync_scope,
            r.execution_level == execution_level,
            r.parent_obj == self.parent_obj,
            r.on_cleanup == self.on_cleanup,
            r.on_destroy == self.on_destroy,
    {
        let mut attrs = self;
        attrs.execution_level = execution_level;
        attrs
    }

    /// The same attributes with the destroy callback `on_destroy`.
    #[must_use]
    pub fn with_on_destroy(self, on_destroy: PFN_WDF_OBJECT_CONTEXT_DESTROY) -> (r: Self)
        ensures
            r.sync_scope == self.sync_scope,
            r.execution_level == self.execution_level,
            r.parent_obj == self.parent_obj,
            r.on_cleanup == self.on_cleanup,
            r.on_destroy == on_destroy,
    {
        let mut attrs = self;
        attrs.on_destroy = on_destroy;
        attrs
    }

    /// The same attributes with the cleanup callback `on_cleanup`.
    #[must_use]
    pub fn with_on_cleanup(self, on_cleanup: PFN_WDF_OBJECT_CONTEXT_CLEANUP) -> (r: Self)
        ensures
            r.sync_scope == self.sync_scope,
            r.execution_level == self.execution_level,
            r.parent_obj == self.parent_obj,
            r.on_cleanup == on_cleanup,
            r.on_destroy == self.on_destroy,
    {
        let mut attrs = self;
        attrs.on_cleanup = on_cleanup;
        attrs
    }
}

/// The options with which a request is sent to an I/O target.
pub struct WdfRequestSendOption {
    pub flags: WdfRequestSendOptionsFlags,
    pub timeout: u64,
}

impl Default for WdfRequestSendOption {
    /// A synchronous send with no timeout.
    fn default() -> (r: Self)
        ensures
            r.flags == WdfRequestSendOptionsFlags::Synchronous,
            r.timeout == 0,
    {
        Self { flags: WdfRequestSendOptionsFlags::Synchronous, timeout: 0 }
    }
}

impl AsBuilder for WdfRequestSendOption {
    type Descriptor = WDF_REQUEST_SEND_OPTIONS;

    /// The timeout's bits are kept as they are in the signed `LONGLONG`.
    fn build(&self) -> (r: WDF_REQUEST_SEND_OPTIONS)
        ensures
            r.Size == ulong_size_of::<WDF_REQUEST_SEND_OPTIONS>(),
            r.Flags == self.flags.primitive() as ULONG,
            r.Timeout == #[verifier::truncate] (self.timeout as LONGLONG),
    {
        WDF_REQUEST_SEND_OPTIONS {
            Size: size_of_as_ulong::<WDF_REQUEST_SEND_OPTIONS>(),
            Flags: i32::from(self.flags) as ULONG,
            Timeout: #[verifier::truncate] (self.timeout as LONGLONG),
        }
    }
}

/// The `Flags` that a send option builds (`option.flags.primitive() as
/// ULONG`) is the framework's `WDF_REQUEST_SEND_OPTION_*` bit named by its
/// flag.
pub proof fn lemma_send_option_flags_bits(option: WdfRequestSendOption)
    ensures
        option.flags.primitive() as ULONG == (match option.flags {
            WdfRequestSendOptionsFlags::Timeout => _WDF_REQUEST_SEND_OPTIONS_FLAGS::WDF_REQUEST_SEND_OPTION_TIMEOUT,
            WdfRequestSendOptionsFlags::Synchronous => _WDF_REQUEST_SEND_OPTIONS_FLAGS::WDF_REQUEST_SEND_OPTION_SYNCHRONOUS,
            WdfRequestSendOptionsFlags::IgnoreTargetState => _WDF_REQUEST_SEND_OPTIONS_FLAGS::WDF_REQUEST_SEND_OPTION_IGNORE_TARGET_STATE,
            WdfRequestSendOptionsFlags::SendAndForget => _WDF_REQUEST_SEND_OPTIONS_FLAGS::WDF_REQUEST_SEND_OPTION_SEND_AND_FORGET,
            WdfRequestSendOptionsFlags::ImpersonateClient => _WDF_REQUEST_SEND_OPTIONS_FLAGS::WDF_REQUEST_SEND_OPTION_IMPERSONATE_CLIENT,
            WdfRequestSendOptionsFlags::ImpersonationIgnoreFailure => _WDF_REQUEST_SEND_OPTIONS_FLAGS::WDF_REQUEST_SEND_OPTION_IMPERSONATION_IGNORE_FAILURE,
        }) as ULONG,
{
}

/// The configuration of the file objects of a device.
pub struct WdfFileObjectConfig {
    on_device_file_create: PFN_WDF_DEVICE_FILE_CREATE,
    on_file_close: PFN_WDF_FILE_CLOSE,
    on_file_cleanup: PFN_WDF_FILE_CLEANUP,
    auto_forward_cleanup_close: WDF_TRI_STATE,
    file_object_class: WdfFileObjClass,
}

impl WdfFileObjectConfig {
    /// The callback called when a file is created.
    pub closed spec fn spec_on_device_file_create(&self) -> PFN_WDF_DEVICE_FILE_CREATE {
        self.on_device_file_create
    }

    /// The callback called when a file is closed.
    pub closed spec fn spec_on_file_close(&self) -> PFN_WDF_FILE_CLOSE {
        self.on_file_close
    }

    /// The callback called when a file is cleaned up.
    pub closed spec fn spec_on_file_cleanup(&self) -> PFN_WDF_FILE_CLEANUP {
        self.on_file_cleanup
    }

    /// Whether cleanup and close requests are forwarded.
    pub closed spec fn spec_auto_forward_cleanup_close(&self) -> WDF_TRI_STATE {
        self.auto_forward_cleanup_close
    }

    /// How the framework tracks the file objects.
    pub closed spec fn spec_file_object_class(&self) -> WdfFileObjClass {
        self.file_object_class
    }
}

impl Default for WdfFileObjectConfig {
    /// No callbacks, no forwarding, and file objects that may be absent.
    fn default() -> (r: Self)
        ensures
            r.spec_on_device_file_create() is None,
            r.spec_on_file_close() is None,
            r.spec_on_file_cleanup() is None,
            r.spec_auto_forward_cleanup_close() == 0,
            r.spec_file_object_class() == WdfFileObjClass::CanBeOptional,
    {
        Self {
            on_device_file_create: None,
            on_file_close: None,
            on_file_cleanup: None,
            auto_forward_cleanup_close: 0,
            file_object_class: WdfFileObjClass::CanBeOptional,
        }
    }
}

impl AsBuilder for WdfFileObjectConfig {
    type Descriptor = WDF_FILEOBJECT_CONFIG;

    #[inline]
    fn build(&self) -> (r: WDF_FILEOBJECT_CONFIG)
        ensures
            r.Size == ulong_size_of::<WDF_FILEOBJECT_CONFIG>(),
            r.EvtDeviceFileCreate == self.spec_on_device_file_create(),
            r.EvtFileClose == self.spec_on_file_close(),
            r.EvtFileCleanup == self.spec_on_file_cleanup(),
            r.AutoForwardCleanupClose == self.spec_auto_forward_cleanup_close(),
            r.FileObjectClass == self.spec_file_object_class().primitive(),
    {
        WDF_FILEOBJECT_CONFIG {
            Size: size_of_as_ulong::<WDF_FILEOBJECT_CONFIG>(),
            EvtDeviceFileCreate: self.on_device_file_create,
            EvtFileClose: self.on_file_close,
            EvtFileCleanup: self.on_file_cleanup,
            AutoForwardCleanupClose: self.auto_forward_cleanup_close,
            FileObjectClass: i32::from(self.file_object_class),
        }
    }
}

} // verus!
