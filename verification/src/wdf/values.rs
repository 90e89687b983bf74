//! The values that the framework exchanges: its enumerations with the
//! numbers that the kernel uses for them, and the errors of I/O targets.
use vstd::prelude::*;
use vstd::std_specs::convert::FromSpecImpl;
use vstd::std_specs::convert::TryFromSpecImpl;

use crate::bd::IoCtlCommand;
use crate::op::IsWdfType;
use crate::rt::wdk_sys::_WDF_IO_QUEUE_DISPATCH_TYPE;
use crate::rt::wdk_sys::_WDF_IO_QUEUE_STATE;
use crate::rt::wdk_sys::_WDF_TRI_STATE;
use crate::rt::wdk_sys::_WDF_FILEOBJECT_CLASS;
use crate::rt::wdk_sys::_WDF_SYNCHRONIZATION_SCOPE;
use crate::rt::wdk_sys::_WDF_EXECUTION_LEVEL;
use crate::rt::wdk_sys::_WDF_REQUEST_TYPE;
use crate::rt::wdk_sys::_WDF_REQUEST_REUSE_FLAGS;
use crate::rt::wdk_sys::_WDF_REQUEST_STOP_ACTION_FLAGS;
use crate::rt::wdk_sys::_WDF_REQUEST_SEND_OPTIONS_FLAGS;
use crate::rt::wdk_sys::_WDF_IO_TARGET_OPEN_TYPE;
use crate::rt::wdk_sys::_WDF_IO_TARGET_STATE;
use crate::rt::wdk_sys::{NTSTATUS, WDF_IO_TARGET_OPEN_TYPE, WDF_IO_TARGET_STATE};

pub use crate::op::NtResult;

verus! {

/// A number that names no value of the enumeration it was converted to.
#[derive(Debug, Copy, Clone, PartialEq, Eq, Structural)]
pub struct TryFromPrimitiveError {
    pub number: i32,
}

/// How a queue hands its requests to the driver.
#[derive(Debug, Copy, Clone, Eq, PartialEq, Structural)]
pub enum WdfIoQueueDispatchType {
    Invalid,
    Sequential,
    Parallel,
    Manual,
    Max,
}

impl WdfIoQueueDispatchType {
    /// The number that the framework uses for this value.
    pub open spec fn primitive(self) -> i32 {
        match self {
            WdfIoQueueDispatchType::Invalid => 0,
            WdfIoQueueDispatchType::Sequential => 1,
            WdfIoQueueDispatchType::Parallel => 2,
            WdfIoQueueDispatchType::Manual => 3,
            WdfIoQueueDispatchType::Max => 4,
        }
    }

    /// The value that the framework writes as `v`, if any.
    pub open spec fn from_primitive_spec(v: i32) -> Option<WdfIoQueueDispatchType> {
        if v == 0 {
            Some(WdfIoQueueDispatchType::Invalid)
        } else if v == 1 {
            Some(WdfIoQueueDispatchType::Sequential)
        } else if v == 2 {
            Some(WdfIoQueueDispatchType::Parallel)
        } else if v == 3 {
            Some(WdfIoQueueDispatchType::Manual)
        } else if v == 4 {
            Some(WdfIoQueueDispatchType::Max)
        } else {
            None
        }
    }
}

impl From<WdfIoQueueDispatchType> for i32 {
    fn from(value: WdfIoQueueDispatchType) -> (r: i32) {
        match value {
            WdfIoQueueDispatchType::Invalid => 0,
            WdfIoQueueDispatchType::Sequential => 1,
            WdfIoQueueDispatchType::Parallel => 2,
            WdfIoQueueDispatchType::Manual => 3,
            WdfIoQueueDispatchType::Max => 4,
        }
    }
}

impl FromSpecImpl<WdfIoQueueDispatchType> for i32 {
    open spec fn obeys_from_spec() -> bool {
        true
    }

    open spec fn from_spec(v: WdfIoQueueDispatchType) -> i32 {
        v.primitive()
    }
}

impl TryFrom<i32> for WdfIoQueueDispatchType {
    type Error = TryFromPrimitiveError;

    fn try_from(number: i32) -> (r: Result<WdfIoQueueDispatchType, TryFromPrimitiveError>) {
        match number {
            0 => Ok(WdfIoQueueDispatchType::Invalid),
            1 => Ok(WdfIoQueueDispatchType::Sequential),
            2 => Ok(WdfIoQueueDispatchType::Parallel),
            3 => Ok(WdfIoQueueDispatchType::Manual),
            4 => Ok(WdfIoQueueDispatchType::Max),
            _ => Err(TryFromPrimitiveError { number }),
        }
    }
}

impl TryFromSpecImpl<i32> for WdfIoQueueDispatchType {
    open spec fn obeys_try_from_spec() -> bool {
        true
    }

    open spec fn try_from_spec(number: i32) -> Result<WdfIoQueueDispatchType, TryFromPrimitiveError> {
        match WdfIoQueueDispatchType::from_primitive_spec(number) {
            Some(v) => Ok(v),
            None => Err(TryFromPrimitiveError { number }),
        }
    }
}

/// Converting a `WdfIoQueueDispatchType` to its number and back gives it again, and a
/// number that converts to a `WdfIoQueueDispatchType` is that value's number.
pub proof fn lemma_wdf_io_queue_dispatch_type_primitive_round_trip(value: WdfIoQueueDispatchType, number: i32)
    ensures
        WdfIoQueueDispatchType::from_primitive_spec(value.primitive()) == Some(value),
        WdfIoQueueDispatchType::from_primitive_spec(number) matches Some(v) ==> v.primitive() == number,
{
}

/// Each `WdfIoQueueDispatchType` stands for the framework's `WDF_IO_QUEUE_DISPATCH_TYPE` constant of the same
/// name: that constant is its number, and the number converts back to it.
pub proof fn lemma_wdf_io_queue_dispatch_type_framework_numbers()
    ensures
        WdfIoQueueDispatchType::Invalid.primitive() == _WDF_IO_QUEUE_DISPATCH_TYPE::WdfIoQueueDispatchInvalid,
        WdfIoQueueDispatchType::from_primitive_spec(_WDF_IO_QUEUE_DISPATCH_TYPE::WdfIoQueueDispatchInvalid) == Some(WdfIoQueueDispatchType::Invalid),
        WdfIoQueueDispatchType::Sequential.primitive() == _WDF_IO_QUEUE_DISPATCH_TYPE::WdfIoQueueDispatchSequential,
        WdfIoQueueDispatchType::from_primitive_spec(_WDF_IO_QUEUE_DISPATCH_TYPE::WdfIoQueueDispatchSequential) == Some(WdfIoQueueDispatchType::Sequential),
        WdfIoQueueDispatchType::Parallel.primitive() == _WDF_IO_QUEUE_DISPATCH_TYPE::WdfIoQueueDispatchParallel,
        WdfIoQueueDispatchType::from_primitive_spec(_WDF_IO_QUEUE_DISPATCH_TYPE::WdfIoQueueDispatchParallel) == Some(WdfIoQueueDispatchType::Parallel),
        WdfIoQueueDispatchType::Manual.primitive() == _WDF_IO_QUEUE_DISPATCH_TYPE::WdfIoQueueDispatchManual,
        WdfIoQueueDispatchType::from_primitive_spec(_WDF_IO_QUEUE_DISPATCH_TYPE::WdfIoQueueDispatchManual) == Some(WdfIoQueueDispatchType::Manual),
        WdfIoQueueDispatchType::Max.primitive() == _WDF_IO_QUEUE_DISPATCH_TYPE::WdfIoQueueDispatchMax,
        WdfIoQueueDispatchType::from_primitive_spec(_WDF_IO_QUEUE_DISPATCH_TYPE::WdfIoQueueDispatchMax) == Some(WdfIoQueueDispatchType::Max),
{
}

/// A state bit of an I/O queue.
#[derive(Debug, Copy, Clone, Eq, PartialEq, Structural)]
pub enum WdfIoQueueState {
    AcceptRequests,
    DispatchRequests,
    NoRequests,
    DriverNoRequests,
    PnpHeld,
}

impl WdfIoQueueState {
    /// The number that the framework uses for this value.
    pub open spec fn primitive(self) -> i32 {
        match self {
            WdfIoQueueState::AcceptRequests => 1,
            WdfIoQueueState::DispatchRequests => 2,
            WdfIoQueueState::NoRequests => 4,
            WdfIoQueueState::DriverNoRequests => 8,
            WdfIoQueueState::PnpHeld => 16,
        }
    }

    /// The value that the framework writes as `v`, if any.
    pub open spec fn from_primitive_spec(v: i32) -> Option<WdfIoQueueState> {
        if v == 1 {
            Some(WdfIoQueueState::AcceptRequests)
        } else if v == 2 {
            Some(WdfIoQueueState::DispatchRequests)
        } else if v == 4 {
            Some(WdfIoQueueState::NoRequests)
        } else if v == 8 {
            Some(WdfIoQueueState::DriverNoRequests)
        } else if v == 16 {
            Some(WdfIoQueueState::PnpHeld)
        } else {
            None
        }
    }
}

impl From<WdfIoQueueState> for i32 {
    fn from(value: WdfIoQueueState) -> (r: i32) {
        match value {
            WdfIoQueueState::AcceptRequests => 1,
            WdfIoQueueState::DispatchRequests => 2,
            WdfIoQueueState::NoRequests => 4,
            WdfIoQueueState::DriverNoRequests => 8,
            WdfIoQueueState::PnpHeld => 16,
        }
    }
}

impl FromSpecImpl<WdfIoQueueState> for i32 {
    open spec fn obeys_from_spec() -> bool {
        true
    }

    open spec fn from_spec(v: WdfIoQueueState) -> i32 {
        v.primitive()
    }
}

impl TryFrom<i32> for WdfIoQueueState {
    type Error = TryFromPrimitiveError;

    fn try_from(number: i32) -> (r: Result<WdfIoQueueState, TryFromPrimitiveError>) {
        match number {
            1 => Ok(WdfIoQueueState::AcceptRequests),
            2 => Ok(WdfIoQueueState::DispatchRequests),
            4 => Ok(WdfIoQueueState::NoRequests),
            8 => Ok(WdfIoQueueState::DriverNoRequests),
            16 => Ok(WdfIoQueueState::PnpHeld),
            _ => Err(TryFromPrimitiveError { number }),
        }
    }
}

impl TryFromSpecImpl<i32> for WdfIoQueueState {
    open spec fn obeys_try_from_spec() -> bool {
        true
    }

    open spec fn try_from_spec(number: i32) -> Result<WdfIoQueueState, TryFromPrimitiveError> {
        match WdfIoQueueState::from_primitive_spec(number) {
            Some(v) => Ok(v),
            None => Err(TryFromPrimitiveError { number }),
        }
    }
}

/// Converting a `WdfIoQueueState` to its number and back gives it again, and a
/// number that converts to a `WdfIoQueueState` is that value's number.
pub proof fn lemma_wdf_io_queue_state_primitive_round_trip(value: WdfIoQueueState, number: i32)
    ensures
        WdfIoQueueState::from_primitive_spec(value.primitive()) == Some(value),
        WdfIoQueueState::from_primitive_spec(number) matches Some(v) ==> v.primitive() == number,
{
}

/// Each `WdfIoQueueState` stands for the framework's `WDF_IO_QUEUE_STATE` constant of the same
/// name: that constant is its number, and the number converts back to it.
pub proof fn lemma_wdf_io_queue_state_framework_numbers()
    ensures
        WdfIoQueueState::AcceptRequests.primitive() == _WDF_IO_QUEUE_STATE::WdfIoQueueAcceptRequests,
        WdfIoQueueState::from_primitive_spec(_WDF_IO_QUEUE_STATE::WdfIoQueueAcceptRequests) == Some(WdfIoQueueState::AcceptRequests),
        WdfIoQueueState::DispatchRequests.primitive() == _WDF_IO_QUEUE_STATE::WdfIoQueueDispatchRequests,
        WdfIoQueueState::from_primitive_spec(_WDF_IO_QUEUE_STATE::WdfIoQueueDispatchRequests) == Some(WdfIoQueueState::DispatchRequests),
        WdfIoQueueState::NoRequests.primitive() == _WDF_IO_QUEUE_STATE::WdfIoQueueNoRequests,
        WdfIoQueueState::from_primitive_spec(_WDF_IO_QUEUE_STATE::WdfIoQueueNoRequests) == Some(WdfIoQueueState::NoRequests),
        WdfIoQueueState::DriverNoRequests.primitive() == _WDF_IO_QUEUE_STATE::WdfIoQueueDriverNoRequests,
        WdfIoQueueState::from_primitive_spec(_WDF_IO_QUEUE_STATE::WdfIoQueueDriverNoRequests) == Some(WdfIoQueueState::DriverNoRequests),
        WdfIoQueueState::PnpHeld.primitive() == _WDF_IO_QUEUE_STATE::WdfIoQueuePnpHeld,
        WdfIoQueueState::from_primitive_spec(_WDF_IO_QUEUE_STATE::WdfIoQueuePnpHeld) == Some(WdfIoQueueState::PnpHeld),
{
}

/// A boolean setting that may also be left to the framework.
#[derive(Debug, Copy, Clone, Eq, PartialEq, Structural)]
pub enum WdfTriState {
    False,
    True,
    Default,
}

impl WdfTriState {
    /// The number that the framework uses for this value.
    pub open spec fn primitive(self) -> i32 {
        match self {
            WdfTriState::False => 0,
            WdfTriState::True => 1,
            WdfTriState::Default => 2,
        }
    }

    /// The value that the framework writes as `v`, if any.
    pub open spec fn from_primitive_spec(v: i32) -> Option<WdfTriState> {
        if v == 0 {
            Some(WdfTriState::False)
        } else if v == 1 {
            Some(WdfTriState::True)
        } else if v == 2 {
            Some(WdfTriState::Default)
        } else {
            None
        }
    }
}

impl From<WdfTriState> for i32 {
    fn from(value: WdfTriState) -> (r: i32) {
        match value {
            WdfTriState::False => 0,
            WdfTriState::True => 1,
            WdfTriState::Default => 2,
        }
    }
}

impl FromSpecImpl<WdfTriState> for i32 {
    open spec fn obeys_from_spec() -> bool {
        true
    }

    open spec fn from_spec(v: WdfTriState) -> i32 {
        v.primitive()
    }
}

impl TryFrom<i32> for WdfTriState {
    type Error = TryFromPrimitiveError;

    fn try_from(number: i32) -> (r: Result<WdfTriState, TryFromPrimitiveError>) {
        match number {
            0 => Ok(WdfTriState::False),
            1 => Ok(WdfTriState::True),
            2 => Ok(WdfTriState::Default),
            _ => Err(TryFromPrimitiveError { number }),
        }
    }
}

impl TryFromSpecImpl<i32> for WdfTriState {
    open spec fn obeys_try_from_spec() -> bool {
        true
    }

    open spec fn try_from_spec(number: i32) -> Result<WdfTriState, TryFromPrimitiveError> {
        match WdfTriState::from_primitive_spec(number) {
            Some(v) => Ok(v),
            None => Err(TryFromPrimitiveError { number }),
        }
    }
}

/// Converting a `WdfTriState` to its number and back gives it again, and a
/// number that converts to a `WdfTriState` is that value's number.
pub proof fn lemma_wdf_tri_state_primitive_round_trip(value: WdfTriState, number: i32)
    ensures
        WdfTriState::from_primitive_spec(value.primitive()) == Some(value),
        WdfTriState::from_primitive_spec(number) matches Some(v) ==> v.primitive() == number,
{
}

/// Each `WdfTriState` stands for the framework's `WDF_TRI_STATE` constant of the same
/// name: that constant is its number, and the number converts back to it.
pub proof fn lemma_wdf_tri_state_framework_numbers()
    ensures
        WdfTriState::False.primitive() == _WDF_TRI_STATE::WdfFalse,
        WdfTriState::from_primitive_spec(_WDF_TRI_STATE::WdfFalse) == Some(WdfTriState::False),
        WdfTriState::True.primitive() == _WDF_TRI_STATE::WdfTrue,
        WdfTriState::from_primitive_spec(_WDF_TRI_STATE::WdfTrue) == Some(WdfTriState::True),
        WdfTriState::Default.primitive() == _WDF_TRI_STATE::WdfUseDefault,
        WdfTriState::from_primitive_spec(_WDF_TRI_STATE::WdfUseDefault) == Some(WdfTriState::Default),
{
}

/// How the framework tracks file objects.
#[derive(Debug, Copy, Clone, Eq, PartialEq, Structural)]
pub enum WdfFileObjClass {
    Invalid,
    NotRequired,
    WdfCanUseFsContext,
    WdfCanUseFsContext2,
    WdfCannotUseFsContexts,
    CanBeOptional,
}

impl WdfFileObjClass {
    /// The number that the framework uses for this value.
    pub open spec fn primitive(self) -> i32 {
        match self {
            WdfFileObjClass::Invalid => 0,
            WdfFileObjClass::NotRequired => 1,
            WdfFileObjClass::WdfCanUseFsContext => 2,
            WdfFileObjClass::WdfCanUseFsContext2 => 3,
            WdfFileObjClass::WdfCannotUseFsContexts => 4,
            WdfFileObjClass::CanBeOptional => -2147483648i32,
        }
    }

    /// The value that the framework writes as `v`, if any.
    pub open spec fn from_primitive_spec(v: i32) -> Option<WdfFileObjClass> {
        if v == 0 {
            Some(WdfFileObjClass::Invalid)
        } else if v == 1 {
            Some(WdfFileObjClass::NotRequired)
        } else if v == 2 {
            Some(WdfFileObjClass::WdfCanUseFsContext)
        } else if v == 3 {
            Some(WdfFileObjClass::WdfCanUseFsContext2)
        } else if v == 4 {
            Some(WdfFileObjClass::WdfCannotUseFsContexts)
        } else if v == -2147483648 {
            Some(WdfFileObjClass::CanBeOptional)
        } else {
            None
        }
    }
}

impl From<WdfFileObjClass> for i32 {
    fn from(value: WdfFileObjClass) -> (r: i32) {
        match value {
            WdfFileObjClass::Invalid => 0,
            WdfFileObjClass::NotRequired => 1,
            WdfFileObjClass::WdfCanUseFsContext => 2,
            WdfFileObjClass::WdfCanUseFsContext2 => 3,
            WdfFileObjClass::WdfCannotUseFsContexts => 4,
            WdfFileObjClass::CanBeOptional => -2147483648i32,
        }
    }
}

impl FromSpecImpl<WdfFileObjClass> for i32 {
    open spec fn obeys_from_spec() -> bool {
        true
    }

    open spec fn from_spec(v: WdfFileObjClass) -> i32 {
        v.primitive()
    }
}

impl TryFrom<i32> for WdfFileObjClass {
    type Error = TryFromPrimitiveError;

    fn try_from(number: i32) -> (r: Result<WdfFileObjClass, TryFromPrimitiveError>) {
        match number {
            0 => Ok(WdfFileObjClass::Invalid),
            1 => Ok(WdfFileObjClass::NotRequired),
            2 => Ok(WdfFileObjClass::WdfCanUseFsContext),
            3 => Ok(WdfFileObjClass::WdfCanUseFsContext2),
            4 => Ok(WdfFileObjClass::WdfCannotUseFsContexts),
            _ if number == i32::MIN => Ok(WdfFileObjClass::CanBeOptional),
            _ => Err(TryFromPrimitiveError { number }),
        }
    }
}

impl TryFromSpecImpl<i32> for WdfFileObjClass {
    open spec fn obeys_try_from_spec() -> bool {
        true
    }

    open spec fn try_from_spec(number: i32) -> Result<WdfFileObjClass, TryFromPrimitiveError> {
        match WdfFileObjClass::from_primitive_spec(number) {
            Some(v) => Ok(v),
            None => Err(TryFromPrimitiveError { number }),
        }
    }
}

/// Converting a `WdfFileObjClass` to its number and back gives it again, and a
/// number that converts to a `WdfFileObjClass` is that value's number.
pub proof fn lemma_wdf_file_obj_class_primitive_round_trip(value: WdfFileObjClass, number: i32)
    ensures
        WdfFileObjClass::from_primitive_spec(value.primitive()) == Some(value),
        WdfFileObjClass::from_primitive_spec(number) matches Some(v) ==> v.primitive() == number,
{
}

/// Each `WdfFileObjClass` stands for the framework's `WDF_FILEOBJECT_CLASS` constant of the same
/// name: that constant is its number, and the number converts back to it.
pub proof fn lemma_wdf_file_obj_class_framework_numbers()
    ensures
        WdfFileObjClass::Invalid.primitive() == _WDF_FILEOBJECT_CLASS::WdfFileObjectInvalid,
        WdfFileObjClass::from_primitive_spec(_WDF_FILEOBJECT_CLASS::WdfFileObjectInvalid) == Some(WdfFileObjClass::Invalid),
        WdfFileObjClass::NotRequired.primitive() == _WDF_FILEOBJECT_CLASS::WdfFileObjectNotRequired,
        WdfFileObjClass::from_primitive_spec(_WDF_FILEOBJECT_CLASS::WdfFileObjectNotRequired) == Some(WdfFileObjClass::NotRequired),
        WdfFileObjClass::WdfCanUseFsContext.primitive() == _WDF_FILEOBJECT_CLASS::WdfFileObjectWdfCanUseFsContext,
        WdfFileObjClass::from_primitive_spec(_WDF_FILEOBJECT_CLASS::WdfFileObjectWdfCanUseFsContext) == Some(WdfFileObjClass::WdfCanUseFsContext),
        WdfFileObjClass::WdfCanUseFsContext2.primitive() == _WDF_FILEOBJECT_CLASS::WdfFileObjectWdfCanUseFsContext2,
        WdfFileObjClass::from_primitive_spec(_WDF_FILEOBJECT_CLASS::WdfFileObjectWdfCanUseFsContext2) == Some(WdfFileObjClass::WdfCanUseFsContext2),
        WdfFileObjClass::WdfCannotUseFsContexts.primitive() == _WDF_FILEOBJECT_CLASS::WdfFileObjectWdfCannotUseFsContexts,
        WdfFileObjClass::from_primitive_spec(_WDF_FILEOBJECT_CLASS::WdfFileObjectWdfCannotUseFsContexts) == Some(WdfFileObjClass::WdfCannotUseFsContexts),
        WdfFileObjClass::CanBeOptional.primitive() == _WDF_FILEOBJECT_CLASS::WdfFileObjectCanBeOptional,
        WdfFileObjClass::from_primitive_spec(_WDF_FILEOBJECT_CLASS::WdfFileObjectCanBeOptional) == Some(WdfFileObjClass::CanBeOptional),
{
}

/// The scope within which the framework serializes callbacks.
#[derive(Debug, Copy, Clone, Eq, PartialEq, Structural)]
pub enum WdfSyncScope {
    Invalid,
    Inherit,
    Device,
    Queue,
    ScopeNone,
}

impl WdfSyncScope {
    /// The number that the framework uses for this value.
    pub open spec fn primitive(self) -> i32 {
        match self {
            WdfSyncScope::Invalid => 0,
            WdfSyncScope::Inherit => 1,
            WdfSyncScope::Device => 2,
            WdfSyncScope::Queue => 3,
            WdfSyncScope::ScopeNone => 4,
        }
    }

    /// The value that the framework writes as `v`, if any.
    pub open spec fn from_primitive_spec(v: i32) -> Option<WdfSyncScope> {
        if v == 0 {
            Some(WdfSyncScope::Invalid)
        } else if v == 1 {
            Some(WdfSyncScope::Inherit)
        } else if v == 2 {
            Some(WdfSyncScope::Device)
        } else if v == 3 {
            Some(WdfSyncScope::Queue)
        } else if v == 4 {
            Some(WdfSyncScope::ScopeNone)
        } else {
            None
        }
    }
}

impl From<WdfSyncScope> for i32 {
    fn from(value: WdfSyncScope) -> (r: i32) {
        match value {
            WdfSyncScope::Invalid => 0,
            WdfSyncScope::Inherit => 1,
            WdfSyncScope::Device => 2,
            WdfSyncScope::Queue => 3,
            WdfSyncScope::ScopeNone => 4,
        }
    }
}

impl FromSpecImpl<WdfSyncScope> for i32 {
    open spec fn obeys_from_spec() -> bool {
        true
    }

    open spec fn from_spec(v: WdfSyncScope) -> i32 {
        v.primitive()
    }
}

impl TryFrom<i32> for WdfSyncScope {
    type Error = TryFromPrimitiveError;

    fn try_from(number: i32) -> (r: Result<WdfSyncScope, TryFromPrimitiveError>) {
        match number {
            0 => Ok(WdfSyncScope::Invalid),
            1 => Ok(WdfSyncScope::Inherit),
            2 => Ok(WdfSyncScope::Device),
            3 => Ok(WdfSyncScope::Queue),
            4 => Ok(WdfSyncScope::ScopeNone),
            _ => Err(TryFromPrimitiveError { number }),
        }
    }
}

impl TryFromSpecImpl<i32> for WdfSyncScope {
    open spec fn obeys_try_from_spec() -> bool {
        true
    }

    open spec fn try_from_spec(number: i32) -> Result<WdfSyncScope, TryFromPrimitiveError> {
        match WdfSyncScope::from_primitive_spec(number) {
            Some(v) => Ok(v),
            None => Err(TryFromPrimitiveError { number }),
        }
    }
}

/// Converting a `WdfSyncScope` to its number and back gives it again, and a
/// number that converts to a `WdfSyncScope` is that value's number.
pub proof fn lemma_wdf_sync_scope_primitive_round_trip(value: WdfSyncScope, number: i32)
    ensures
        WdfSyncScope::from_primitive_spec(value.primitive()) == Some(value),
        WdfSyncScope::from_primitive_spec(number) matches Some(v) ==> v.primitive() == number,
{
}

/// Each `WdfSyncScope` stands for the framework's `WDF_SYNCHRONIZATION_SCOPE` constant of the same
/// name: that constant is its number, and the number converts back to it.
pub proof fn lemma_wdf_sync_scope_framework_numbers()
    ensures
        WdfSyncScope::Invalid.primitive() == _WDF_SYNCHRONIZATION_SCOPE::WdfSynchronizationScopeInvalid,
        WdfSyncScope::from_primitive_spec(_WDF_SYNCHRONIZATION_SCOPE::WdfSynchronizationScopeInvalid) == Some(WdfSyncScope::Invalid),
        WdfSyncScope::Inherit.primitive() == _WDF_SYNCHRONIZATION_SCOPE::WdfSynchronizationScopeInheritFromParent,
        WdfSyncScope::from_primitive_spec(_WDF_SYNCHRONIZATION_SCOPE::WdfSynchronizationScopeInheritFromParent) == Some(WdfSyncScope::Inherit),
        WdfSyncScope::Device.primitive() == _WDF_SYNCHRONIZATION_SCOPE::WdfSynchronizationScopeDevice,
        WdfSyncScope::from_primitive_spec(_WDF_SYNCHRONIZATION_SCOPE::WdfSynchronizationScopeDevice) == Some(WdfSyncScope::Device),
        WdfSyncScope::Queue.primitive() == _WDF_SYNCHRONIZATION_SCOPE::WdfSynchronizationScopeQueue,
        WdfSyncScope::from_primitive_spec(_WDF_SYNCHRONIZATION_SCOPE::WdfSynchronizationScopeQueue) == Some(WdfSyncScope::Queue),
        WdfSyncScope::ScopeNone.primitive() == _WDF_SYNCHRONIZATION_SCOPE::WdfSynchronizationScopeNone,
        WdfSyncScope::from_primitive_spec(_WDF_SYNCHRONIZATION_SCOPE::WdfSynchronizationScopeNone) == Some(WdfSyncScope::ScopeNone),
{
}

/// The IRQL at which the framework calls an object's callbacks.
#[derive(Debug, Copy, Clone, Eq, PartialEq, Structural)]
pub enum WdfExecutionLevel {
    Invalid,
    Inherit,
    Passive,
    Dispatch,
}

impl WdfExecutionLevel {
    /// The number that the framework uses for this value.
    pub open spec fn primitive(self) -> i32 {
        match self {
            WdfExecutionLevel::Invalid => 0,
            WdfExecutionLevel::Inherit => 1,
            WdfExecutionLevel::Passive => 2,
            WdfExecutionLevel::Dispatch => 3,
        }
    }

    /// The value that the framework writes as `v`, if any.
    pub open spec fn from_primitive_spec(v: i32) -> Option<WdfExecutionLevel> {
        if v == 0 {
            Some(WdfExecutionLevel::Invalid)
        } else if v == 1 {
            Some(WdfExecutionLevel::Inherit)
        } else if v == 2 {
            Some(WdfExecutionLevel::Passive)
        } else if v == 3 {
            Some(WdfExecutionLevel::Dispatch)
        } else {
            None
        }
    }
}

impl From<WdfExecutionLevel> for i32 {
    fn from(value: WdfExecutionLevel) -> (r: i32) {
        match value {
            WdfExecutionLevel::Invalid => 0,
            WdfExecutionLevel::Inherit => 1,
            WdfExecutionLevel::Passive => 2,
            WdfExecutionLevel::Dispatch => 3,
        }
    }
}

impl FromSpecImpl<WdfExecutionLevel> for i32 {
    open spec fn obeys_from_spec() -> bool {
        true
    }

    open spec fn from_spec(v: WdfExecutionLevel) -> i32 {
        v.primitive()
    }
}

impl TryFrom<i32> for WdfExecutionLevel {
    type Error = TryFromPrimitiveError;

    fn try_from(number: i32) -> (r: Result<WdfExecutionLevel, TryFromPrimitiveError>) {
        match number {
            0 => Ok(WdfExecutionLevel::Invalid),
            1 => Ok(WdfExecutionLevel::Inherit),
            2 => Ok(WdfExecutionLevel::Passive),
            3 => Ok(WdfExecutionLevel::Dispatch),
            _ => Err(TryFromPrimitiveError { number }),
        }
    }
}

impl TryFromSpecImpl<i32> for WdfExecutionLevel {
    open spec fn obeys_try_from_spec() -> bool {
        true
    }

    open spec fn try_from_spec(number: i32) -> Result<WdfExecutionLevel, TryFromPrimitiveError> {
        match WdfExecutionLevel::from_primitive_spec(number) {
            Some(v) => Ok(v),
            None => Err(TryFromPrimitiveError { number }),
        }
    }
}

/// Converting a `WdfExecutionLevel` to its number and back gives it again, and a
/// number that converts to a `WdfExecutionLevel` is that value's number.
pub proof fn lemma_wdf_execution_level_primitive_round_trip(value: WdfExecutionLevel, number: i32)
    ensures
        WdfExecutionLevel::from_primitive_spec(value.primitive()) == Some(value),
        WdfExecutionLevel::from_primitive_spec(number) matches Some(v) ==> v.primitive() == number,
{
}

/// Each `WdfExecutionLevel` stands for the framework's `WDF_EXECUTION_LEVEL` constant of the same
/// name: that constant is its number, and the number converts back to it.
pub proof fn lemma_wdf_execution_level_framework_numbers()
    ensures
        WdfExecutionLevel::Invalid.primitive() == _WDF_EXECUTION_LEVEL::WdfExecutionLevelInvalid,
        WdfExecutionLevel::from_primitive_spec(_WDF_EXECUTION_LEVEL::WdfExecutionLevelInvalid) == Some(WdfExecutionLevel::Invalid),
        WdfExecutionLevel::Inherit.primitive() == _WDF_EXECUTION_LEVEL::WdfExecutionLevelInheritFromParent,
        WdfExecutionLevel::from_primitive_spec(_WDF_EXECUTION_LEVEL::WdfExecutionLevelInheritFromParent) == Some(WdfExecutionLevel::Inherit),
        WdfExecutionLevel::Passive.primitive() == _WDF_EXECUTION_LEVEL::WdfExecutionLevelPassive,
        WdfExecutionLevel::from_primitive_spec(_WDF_EXECUTION_LEVEL::WdfExecutionLevelPassive) == Some(WdfExecutionLevel::Passive),
        WdfExecutionLevel::Dispatch.primitive() == _WDF_EXECUTION_LEVEL::WdfExecutionLevelDispatch,
        WdfExecutionLevel::from_primitive_spec(_WDF_EXECUTION_LEVEL::WdfExecutionLevelDispatch) == Some(WdfExecutionLevel::Dispatch),
{
}

/// The kind of an I/O request.
#[derive(Debug, Copy, Clone, Eq, PartialEq, Structural)]
pub enum WdfRequestType {
    Create,
    CreateNamedPipe,
    Close,
    Read,
    Write,
    QueryInformation,
    SetInformation,
    QueryEA,
    SetEA,
    FlushBuffers,
    QueryVolumeInformation,
    SetVolumeInformation,
    DirectoryControl,
    FileSystemControl,
    DeviceControl,
    DeviceControlInternal,
    Shutdown,
    LockControl,
    Cleanup,
    CreateMailSlot,
    QuerySecurity,
    SetSecurity,
    Power,
    SystemControl,
    DeviceChange,
    QueryQuota,
    SetQuota,
    Pnp,
    Other,
    Usb,
    NoFormat,
    Max,
}

impl WdfRequestType {
    /// The number that the framework uses for this value.
    pub open spec fn primitive(self) -> i32 {
        match self {
            WdfRequestType::Create => 0,
            WdfRequestType::CreateNamedPipe => 1,
            WdfRequestType::Close => 2,
            WdfRequestType::Read => 3,
            WdfRequestType::Write => 4,
            WdfRequestType::QueryInformation => 5,
            WdfRequestType::SetInformation => 6,
            WdfRequestType::QueryEA => 7,
            WdfRequestType::SetEA => 8,
            WdfRequestType::FlushBuffers => 9,
            WdfRequestType::QueryVolumeInformation => 10,
            WdfRequestType::SetVolumeInformation => 11,
            WdfRequestType::DirectoryControl => 12,
            WdfRequestType::FileSystemControl => 13,
            WdfRequestType::DeviceControl => 14,
            WdfRequestType::DeviceControlInternal => 15,
            WdfRequestType::Shutdown => 16,
            WdfRequestType::LockControl => 17,
            WdfRequestType::Cleanup => 18,
            WdfRequestType::CreateMailSlot => 19,
            WdfRequestType::QuerySecurity => 20,
            WdfRequestType::SetSecurity => 21,
            WdfRequestType::Power => 22,
            WdfRequestType::SystemControl => 23,
            WdfRequestType::DeviceChange => 24,
            WdfRequestType::QueryQuota => 25,
            WdfRequestType::SetQuota => 26,
            WdfRequestType::Pnp => 27,
            WdfRequestType::Other => 28,
            WdfRequestType::Usb => 64,
            WdfRequestType::NoFormat => 255,
            WdfRequestType::Max => 256,
        }
    }

    /// The value that the framework writes as `v`, if any.
    pub open spec fn from_primitive_spec(v: i32) -> Option<WdfRequestType> {
        if v == 0 {
            Some(WdfRequestType::Create)
        } else if v == 1 {
            Some(WdfRequestType::CreateNamedPipe)
        } else if v == 2 {
            Some(WdfRequestType::Close)
        } else if v == 3 {
            Some(WdfRequestType::Read)
        } else if v == 4 {
            Some(WdfRequestType::Write)
        } else if v == 5 {
            Some(WdfRequestType::QueryInformation)
        } else if v == 6 {
            Some(WdfRequestType::SetInformation)
        } else if v == 7 {
            Some(WdfRequestType::QueryEA)
        } else if v == 8 {
            Some(WdfRequestType::SetEA)
        } else if v == 9 {
            Some(WdfRequestType::FlushBuffers)
        } else if v == 10 {
            Some(WdfRequestType::QueryVolumeInformation)
        } else if v == 11 {
            Some(WdfRequestType::SetVolumeInformation)
        } else if v == 12 {
            Some(WdfRequestType::DirectoryControl)
        } else if v == 13 {
            Some(WdfRequestType::FileSystemControl)
        } else if v == 14 {
            Some(WdfRequestType::DeviceControl)
        } else if v == 15 {
            Some(WdfRequestType::DeviceControlInternal)
        } else if v == 16 {
            Some(WdfRequestType::Shutdown)
        } else if v == 17 {
            Some(WdfRequestType::LockControl)
        } else if v == 18 {
            Some(WdfRequestType::Cleanup)
        } else if v == 19 {
            Some(WdfRequestType::CreateMailSlot)
        } else if v == 20 {
            Some(WdfRequestType::QuerySecurity)
        } else if v == 21 {
            Some(WdfRequestType::SetSecurity)
        } else if v == 22 {
            Some(WdfRequestType::Power)
        } else if v == 23 {
            Some(WdfRequestType::SystemControl)
        } else if v == 24 {
            Some(WdfRequestType::DeviceChange)
        } else if v == 25 {
            Some(WdfRequestType::QueryQuota)
        } else if v == 26 {
            Some(WdfRequestType::SetQuota)
        } else if v == 27 {
            Some(WdfRequestType::Pnp)
        } else if v == 28 {
            Some(WdfRequestType::Other)
        } else if v == 64 {
            Some(WdfRequestType::Usb)
        } else if v == 255 {
            Some(WdfRequestType::NoFormat)
        } else if v == 256 {
            Some(WdfRequestType::Max)
        } else {
            None
        }
    }
}

impl From<WdfRequestType> for i32 {
    fn from(value: WdfRequestType) -> (r: i32) {
        match value {
            WdfRequestType::Create => 0,
            WdfRequestType::CreateNamedPipe => 1,
            WdfRequestType::Close => 2,
            WdfRequestType::Read => 3,
            WdfRequestType::Write => 4,
            WdfRequestType::QueryInformation => 5,
            WdfRequestType::SetInformation => 6,
            WdfRequestType::QueryEA => 7,
            WdfRequestType::SetEA => 8,
            WdfRequestType::FlushBuffers => 9,
            WdfRequestType::QueryVolumeInformation => 10,
            WdfRequestType::SetVolumeInformation => 11,
            WdfRequestType::DirectoryControl => 12,
            WdfRequestType::FileSystemControl => 13,
            WdfRequestType::DeviceControl => 14,
            WdfRequestType::DeviceControlInternal => 15,
            WdfRequestType::Shutdown => 16,
            WdfRequestType::LockControl => 17,
            WdfRequestType::Cleanup => 18,
            WdfRequestType::CreateMailSlot => 19,
            WdfRequestType::QuerySecurity => 20,
            WdfRequestType::SetSecurity => 21,
            WdfRequestType::Power => 22,
            WdfRequestType::SystemControl => 23,
            WdfRequestType::DeviceChange => 24,
            WdfRequestType::QueryQuota => 25,
            WdfRequestType::SetQuota => 26,
            WdfRequestType::Pnp => 27,
            WdfRequestType::Other => 28,
            WdfRequestType::Usb => 64,
            WdfRequestType::NoFormat => 255,
            WdfRequestType::Max => 256,
        }
    }
}

impl FromSpecImpl<WdfRequestType> for i32 {
    open spec fn obeys_from_spec() -> bool {
        true
    }

    open spec fn from_spec(v: WdfRequestType) -> i32 {
        v.primitive()
    }
}

impl TryFrom<i32> for WdfRequestType {
    type Error = TryFromPrimitiveError;

    fn try_from(number: i32) -> (r: Result<WdfRequestType, TryFromPrimitiveError>) {
        match number {
            0 => Ok(WdfRequestType::Create),
            1 => Ok(WdfRequestType::CreateNamedPipe),
            2 => Ok(WdfRequestType::Close),
            3 => Ok(WdfRequestType::Read),
            4 => Ok(WdfRequestType::Write),
            5 => Ok(WdfRequestType::QueryInformation),
            6 => Ok(WdfRequestType::SetInformation),
            7 => Ok(WdfRequestType::QueryEA),
            8 => Ok(WdfRequestType::SetEA),
            9 => Ok(WdfRequestType::FlushBuffers),
            10 => Ok(WdfRequestType::QueryVolumeInformation),
            11 => Ok(WdfRequestType::SetVolumeInformation),
            12 => Ok(WdfRequestType::DirectoryControl),
            13 => Ok(WdfRequestType::FileSystemControl),
            14 => Ok(WdfRequestType::DeviceControl),
            15 => Ok(WdfRequestType::DeviceControlInternal),
            16 => Ok(WdfRequestType::Shutdown),
            17 => Ok(WdfRequestType::LockControl),
            18 => Ok(WdfRequestType::Cleanup),
            19 => Ok(WdfRequestType::CreateMailSlot),
            20 => Ok(WdfRequestType::QuerySecurity),
            21 => Ok(WdfRequestType::SetSecurity),
            22 => Ok(WdfRequestType::Power),
            23 => Ok(WdfRequestType::SystemControl),
            24 => Ok(WdfRequestType::DeviceChange),
            25 => Ok(WdfRequestType::QueryQuota),
            26 => Ok(WdfRequestType::SetQuota),
            27 => Ok(WdfRequestType::Pnp),
            28 => Ok(WdfRequestType::Other),
            64 => Ok(WdfRequestType::Usb),
            255 => Ok(WdfRequestType::NoFormat),
            256 => Ok(WdfRequestType::Max),
            _ => Err(TryFromPrimitiveError { number }),
        }
    }
}

impl TryFromSpecImpl<i32> for WdfRequestType {
    open spec fn obeys_try_from_spec() -> bool {
        true
    }

    open spec fn try_from_spec(number: i32) -> Result<WdfRequestType, TryFromPrimitiveError> {
        match WdfRequestType::from_primitive_spec(number) {
            Some(v) => Ok(v),
            None => Err(TryFromPrimitiveError { number }),
        }
    }
}

/// Converting a `WdfRequestType` to its number and back gives it again, and a
/// number that converts to a `WdfRequestType` is that value's number.
pub proof fn lemma_wdf_request_type_primitive_round_trip(value: WdfRequestType, number: i32)
    ensures
        WdfRequestType::from_primitive_spec(value.primitive()) == Some(value),
        WdfRequestType::from_primitive_spec(number) matches Some(v) ==> v.primitive() == number,
{
}

/// Each `WdfRequestType` stands for the framework's `WDF_REQUEST_TYPE` constant of the same
/// name: that constant is its number, and the number converts back to it.
pub proof fn lemma_wdf_request_type_framework_numbers()
    ensures
        WdfRequestType::Create.primitive() == _WDF_REQUEST_TYPE::WdfRequestTypeCreate,
        WdfRequestType::from_primitive_spec(_WDF_REQUEST_TYPE::WdfRequestTypeCreate) == Some(WdfRequestType::Create),
        WdfRequestType::CreateNamedPipe.primitive() == _WDF_REQUEST_TYPE::WdfRequestTypeCreateNamedPipe,
        WdfRequestType::from_primitive_spec(_WDF_REQUEST_TYPE::WdfRequestTypeCreateNamedPipe) == Some(WdfRequestType::CreateNamedPipe),
        WdfRequestType::Close.primitive() == _WDF_REQUEST_TYPE::WdfRequestTypeClose,
        WdfRequestType::from_primitive_spec(_WDF_REQUEST_TYPE::WdfRequestTypeClose) == Some(WdfRequestType::Close),
        WdfRequestType::Read.primitive() == _WDF_REQUEST_TYPE::WdfRequestTypeRead,
        WdfRequestType::from_primitive_spec(_WDF_REQUEST_TYPE::WdfRequestTypeRead) == Some(WdfRequestType::Read),
        WdfRequestType::Write.primitive() == _WDF_REQUEST_TYPE::WdfRequestTypeWrite,
        WdfRequestType::from_primitive_spec(_WDF_REQUEST_TYPE::WdfRequestTypeWrite) == Some(WdfRequestType::Write),
        WdfRequestType::QueryInformation.primitive() == _WDF_REQUEST_TYPE::WdfRequestTypeQueryInformation,
        WdfRequestType::from_primitive_spec(_WDF_REQUEST_TYPE::WdfRequestTypeQueryInformation) == Some(WdfRequestType::QueryInformation),
        WdfRequestType::SetInformation.primitive() == _WDF_REQUEST_TYPE::WdfRequestTypeSetInformation,
        WdfRequestType::from_primitive_spec(_WDF_REQUEST_TYPE::WdfRequestTypeSetInformation) == Some(WdfRequestType::SetInformation),
        WdfRequestType::QueryEA.primitive() == _WDF_REQUEST_TYPE::WdfRequestTypeQueryEA,
        WdfRequestType::from_primitive_spec(_WDF_REQUEST_TYPE::WdfRequestTypeQueryEA) == Some(WdfRequestType::QueryEA),
        WdfRequestType::SetEA.primitive() == _WDF_REQUEST_TYPE::WdfRequestTypeSetEA,
        WdfRequestType::from_primitive_spec(_WDF_REQUEST_TYPE::WdfRequestTypeSetEA) == Some(WdfRequestType::SetEA),
        WdfRequestType::FlushBuffers.primitive() == _WDF_REQUEST_TYPE::WdfRequestTypeFlushBuffers,
        WdfRequestType::from_primitive_spec(_WDF_REQUEST_TYPE::WdfRequestTypeFlushBuffers) == Some(WdfRequestType::FlushBuffers),
        WdfRequestType::QueryVolumeInformation.primitive() == _WDF_REQUEST_TYPE::WdfRequestTypeQueryVolumeInformation,
        WdfRequestType::from_primitive_spec(_WDF_REQUEST_TYPE::WdfRequestTypeQueryVolumeInformation) == Some(WdfRequestType::QueryVolumeInformation),
        WdfRequestType::SetVolumeInformation.primitive() == _WDF_REQUEST_TYPE::WdfRequestTypeSetVolumeInformation,
        WdfRequestType::from_primitive_spec(_WDF_REQUEST_TYPE::WdfRequestTypeSetVolumeInformation) == Some(WdfRequestType::SetVolumeInformation),
        WdfRequestType::DirectoryControl.primitive() == _WDF_REQUEST_TYPE::WdfRequestTypeDirectoryControl,
        WdfRequestType::from_primitive_spec(_WDF_REQUEST_TYPE::WdfRequestTypeDirectoryControl) == Some(WdfRequestType::DirectoryControl),
        WdfRequestType::FileSystemControl.primitive() == _WDF_REQUEST_TYPE::WdfRequestTypeFileSystemControl,
        WdfRequestType::from_primitive_spec(_WDF_REQUEST_TYPE::WdfRequestTypeFileSystemControl) == Some(WdfRequestType::FileSystemControl),
        WdfRequestType::DeviceControl.primitive() == _WDF_REQUEST_TYPE::WdfRequestTypeDeviceControl,
        WdfRequestType::from_primitive_spec(_WDF_REQUEST_TYPE::WdfRequestTypeDeviceControl) == Some(WdfRequestType::DeviceControl),
        WdfRequestType::DeviceControlInternal.primitive() == _WDF_REQUEST_TYPE::WdfRequestTypeDeviceControlInternal,
        WdfRequestType::from_primitive_spec(_WDF_REQUEST_TYPE::WdfRequestTypeDeviceControlInternal) == Some(WdfRequestType::DeviceControlInternal),
        WdfRequestType::Shutdown.primitive() == _WDF_REQUEST_TYPE::WdfRequestTypeShutdown,
        WdfRequestType::from_primitive_spec(_WDF_REQUEST_TYPE::WdfRequestTypeShutdown) == Some(WdfRequestType::Shutdown),
        WdfRequestType::LockControl.primitive() == _WDF_REQUEST_TYPE::WdfRequestTypeLockControl,
        WdfRequestType::from_primitive_spec(_WDF_REQUEST_TYPE::WdfRequestTypeLockControl) == Some(WdfRequestType::LockControl),
        WdfRequestType::Cleanup.primitive() == _WDF_REQUEST_TYPE::WdfRequestTypeCleanup,
        WdfRequestType::from_primitive_spec(_WDF_REQUEST_TYPE::WdfRequestTypeCleanup) == Some(WdfRequestType::Cleanup),
        WdfRequestType::CreateMailSlot.primitive() == _WDF_REQUEST_TYPE::WdfRequestTypeCreateMailSlot,
        WdfRequestType::from_primitive_spec(_WDF_REQUEST_TYPE::WdfRequestTypeCreateMailSlot) == Some(WdfRequestType::CreateMailSlot),
        WdfRequestType::QuerySecurity.primitive() == _WDF_REQUEST_TYPE::WdfRequestTypeQuerySecurity,
        WdfRequestType::from_primitive_spec(_WDF_REQUEST_TYPE::WdfRequestTypeQuerySecurity) == Some(WdfRequestType::QuerySecurity),
        WdfRequestType::SetSecurity.primitive() == _WDF_REQUEST_TYPE::WdfRequestTypeSetSecurity,
        WdfRequestType::from_primitive_spec(_WDF_REQUEST_TYPE::WdfRequestTypeSetSecurity) == Some(WdfRequestType::SetSecurity),
        WdfRequestType::Power.primitive() == _WDF_REQUEST_TYPE::WdfRequestTypePower,
        WdfRequestType::from_primitive_spec(_WDF_REQUEST_TYPE::WdfRequestTypePower) == Some(WdfRequestType::Power),
        WdfRequestType::SystemControl.primitive() == _WDF_REQUEST_TYPE::WdfRequestTypeSystemControl,
        WdfRequestType::from_primitive_spec(_WDF_REQUEST_TYPE::WdfRequestTypeSystemControl) == Some(WdfRequestType::SystemControl),
        WdfRequestType::DeviceChange.primitive() == _WDF_REQUEST_TYPE::WdfRequestTypeDeviceChange,
        WdfRequestType::from_primitive_spec(_WDF_REQUEST_TYPE::WdfRequestTypeDeviceChange) == Some(WdfRequestType::DeviceChange),
        WdfRequestType::QueryQuota.primitive() == _WDF_REQUEST_TYPE::WdfRequestTypeQueryQuota,
        WdfRequestType::from_primitive_spec(_WDF_REQUEST_TYPE::WdfRequestTypeQueryQuota) == Some(WdfRequestType::QueryQuota),
        WdfRequestType::SetQuota.primitive() == _WDF_REQUEST_TYPE::WdfRequestTypeSetQuota,
        WdfRequestType::from_primitive_spec(_WDF_REQUEST_TYPE::WdfRequestTypeSetQuota) == Some(WdfRequestType::SetQuota),
        WdfRequestType::Pnp.primitive() == _WDF_REQUEST_TYPE::WdfRequestTypePnp,
        WdfRequestType::from_primitive_spec(_WDF_REQUEST_TYPE::WdfRequestTypePnp) == Some(WdfRequestType::Pnp),
        WdfRequestType::Other.primitive() == _WDF_REQUEST_TYPE::WdfRequestTypeOther,
        WdfRequestType::from_primitive_spec(_WDF_REQUEST_TYPE::WdfRequestTypeOther) == Some(WdfRequestType::Other),
        WdfRequestType::Usb.primitive() == _WDF_REQUEST_TYPE::WdfRequestTypeUsb,
        WdfRequestType::from_primitive_spec(_WDF_REQUEST_TYPE::WdfRequestTypeUsb) == Some(WdfRequestType::Usb),
        WdfRequestType::NoFormat.primitive() == _WDF_REQUEST_TYPE::WdfRequestTypeNoFormat,
        WdfRequestType::from_primitive_spec(_WDF_REQUEST_TYPE::WdfRequestTypeNoFormat) == Some(WdfRequestType::NoFormat),
        WdfRequestType::Max.primitive() == _WDF_REQUEST_TYPE::WdfRequestTypeMax,
        WdfRequestType::from_primitive_spec(_WDF_REQUEST_TYPE::WdfRequestTypeMax) == Some(WdfRequestType::Max),
{
}

/// How a request is prepared for reuse.
#[derive(Debug, Copy, Clone, Eq, PartialEq, Structural)]
pub enum WdfRequestReuseFlags {
    NoFlags,
    SetNewIrp,
}

impl WdfRequestReuseFlags {
    /// The number that the framework uses for this value.
    pub open spec fn primitive(self) -> i32 {
        match self {
            WdfRequestReuseFlags::NoFlags => 0,
            WdfRequestReuseFlags::SetNewIrp => 1,
        }
    }

    /// The value that the framework writes as `v`, if any.
    pub open spec fn from_primitive_spec(v: i32) -> Option<WdfRequestReuseFlags> {
        if v == 0 {
            Some(WdfRequestReuseFlags::NoFlags)
        } else if v == 1 {
            Some(WdfRequestReuseFlags::SetNewIrp)
        } else {
            None
        }
    }
}

impl From<WdfRequestReuseFlags> for i32 {
    fn from(value: WdfRequestReuseFlags) -> (r: i32) {
        match value {
            WdfRequestReuseFlags::NoFlags => 0,
            WdfRequestReuseFlags::SetNewIrp => 1,
        }
    }
}

impl FromSpecImpl<WdfRequestReuseFlags> for i32 {
    open spec fn obeys_from_spec() -> bool {
        true
    }

    open spec fn from_spec(v: WdfRequestReuseFlags) -> i32 {
        v.primitive()
    }
}

impl TryFrom<i32> for WdfRequestReuseFlags {
    type Error = TryFromPrimitiveError;

    fn try_from(number: i32) -> (r: Result<WdfRequestReuseFlags, TryFromPrimitiveError>) {
        match number {
            0 => Ok(WdfRequestReuseFlags::NoFlags),
            1 => Ok(WdfRequestReuseFlags::SetNewIrp),
            _ => Err(TryFromPrimitiveError { number }),
        }
    }
}

impl TryFromSpecImpl<i32> for WdfRequestReuseFlags {
    open spec fn obeys_try_from_spec() -> bool {
        true
    }

    open spec fn try_from_spec(number: i32) -> Result<WdfRequestReuseFlags, TryFromPrimitiveError> {
        match WdfRequestReuseFlags::from_primitive_spec(number) {
            Some(v) => Ok(v),
            None => Err(TryFromPrimitiveError { number }),
        }
    }
}

/// Converting a `WdfRequestReuseFlags` to its number and back gives it again, and a
/// number that converts to a `WdfRequestReuseFlags` is that value's number.
pub proof fn lemma_wdf_request_reuse_flags_primitive_round_trip(value: WdfRequestReuseFlags, number: i32)
    ensures
        WdfRequestReuseFlags::from_primitive_spec(value.primitive()) == Some(value),
        WdfRequestReuseFlags::from_primitive_spec(number) matches Some(v) ==> v.primitive() == number,
{
}

/// Each `WdfRequestReuseFlags` stands for the framework's `WDF_REQUEST_REUSE_FLAGS` constant of the same
/// name: that constant is its number, and the number converts back to it.
pub proof fn lemma_wdf_request_reuse_flags_framework_numbers()
    ensures
        WdfRequestReuseFlags::NoFlags.primitive() == _WDF_REQUEST_REUSE_FLAGS::WDF_REQUEST_REUSE_NO_FLAGS,
        WdfRequestReuseFlags::from_primitive_spec(_WDF_REQUEST_REUSE_FLAGS::WDF_REQUEST_REUSE_NO_FLAGS) == Some(WdfRequestReuseFlags::NoFlags),
        WdfRequestReuseFlags::SetNewIrp.primitive() == _WDF_REQUEST_REUSE_FLAGS::WDF_REQUEST_REUSE_SET_NEW_IRP,
        WdfRequestReuseFlags::from_primitive_spec(_WDF_REQUEST_REUSE_FLAGS::WDF_REQUEST_REUSE_SET_NEW_IRP) == Some(WdfRequestReuseFlags::SetNewIrp),
{
}

/// Why the framework stops a queue's request.
#[derive(Debug, Copy, Clone, Eq, PartialEq, Structural)]
pub enum WdfRequestStopActionFlags {
    Invalid,
    Suspend,
    Purge,
    RequestCancelable,
}

impl WdfRequestStopActionFlags {
    /// The number that the framework uses for this value.
    pub open spec fn primitive(self) -> i32 {
        match self {
            WdfRequestStopActionFlags::Invalid => 0,
            WdfRequestStopActionFlags::Suspend => 1,
            WdfRequestStopActionFlags::Purge => 2,
            WdfRequestStopActionFlags::RequestCancelable => 268435456,
        }
    }

    /// The value that the framework writes as `v`, if any.
    pub open spec fn from_primitive_spec(v: i32) -> Option<WdfRequestStopActionFlags> {
        if v == 0 {
            Some(WdfRequestStopActionFlags::Invalid)
        } else if v == 1 {
            Some(WdfRequestStopActionFlags::Suspend)
        } else if v == 2 {
            Some(WdfRequestStopActionFlags::Purge)
        } else if v == 268435456 {
            Some(WdfRequestStopActionFlags::RequestCancelable)
        } else {
            None
        }
    }
}

impl From<WdfRequestStopActionFlags> for i32 {
    fn from(value: WdfRequestStopActionFlags) -> (r: i32) {
        match value {
            WdfRequestStopActionFlags::Invalid => 0,
            WdfRequestStopActionFlags::Suspend => 1,
            WdfRequestStopActionFlags::Purge => 2,
            WdfRequestStopActionFlags::RequestCancelable => 268435456,
        }
    }
}

impl FromSpecImpl<WdfRequestStopActionFlags> for i32 {
    open spec fn obeys_from_spec() -> bool {
        true
    }

    open spec fn from_spec(v: WdfRequestStopActionFlags) -> i32 {
        v.primitive()
    }
}

impl TryFrom<i32> for WdfRequestStopActionFlags {
    type Error = TryFromPrimitiveError;

    fn try_from(number: i32) -> (r: Result<WdfRequestStopActionFlags, TryFromPrimitiveError>) {
        match number {
            0 => Ok(WdfRequestStopActionFlags::Invalid),
            1 => Ok(WdfRequestStopActionFlags::Suspend),
            2 => Ok(WdfRequestStopActionFlags::Purge),
            268435456 => Ok(WdfRequestStopActionFlags::RequestCancelable),
            _ => Err(TryFromPrimitiveError { number }),
        }
    }
}

impl TryFromSpecImpl<i32> for WdfRequestStopActionFlags {
    open spec fn obeys_try_from_spec() -> bool {
        true
    }

    open spec fn try_from_spec(number: i32) -> Result<WdfRequestStopActionFlags, TryFromPrimitiveError> {
        match WdfRequestStopActionFlags::from_primitive_spec(number) {
            Some(v) => Ok(v),
            None => Err(TryFromPrimitiveError { number }),
        }
    }
}

/// Converting a `WdfRequestStopActionFlags` to its number and back gives it again, and a
/// number that converts to a `WdfRequestStopActionFlags` is that value's number.
pub proof fn lemma_wdf_request_stop_action_flags_primitive_round_trip(value: WdfRequestStopActionFlags, number: i32)
    ensures
        WdfRequestStopActionFlags::from_primitive_spec(value.primitive()) == Some(value),
        WdfRequestStopActionFlags::from_primitive_spec(number) matches Some(v) ==> v.primitive() == number,
{
}

/// Each `WdfRequestStopActionFlags` stands for the framework's `WDF_REQUEST_STOP_ACTION_FLAGS` constant of the same
/// name: that constant is its number, and the number converts back to it.
pub proof fn lemma_wdf_request_stop_action_flags_framework_numbers()
    ensures
        WdfRequestStopActionFlags::Invalid.primitive() == _WDF_REQUEST_STOP_ACTION_FLAGS::WdfRequestStopActionInvalid,
        WdfRequestStopActionFlags::from_primitive_spec(_WDF_REQUEST_STOP_ACTION_FLAGS::WdfRequestStopActionInvalid) == Some(WdfRequestStopActionFlags::Invalid),
        WdfRequestStopActionFlags::Suspend.primitive() == _WDF_REQUEST_STOP_ACTION_FLAGS::WdfRequestStopActionSuspend,
        WdfRequestStopActionFlags::from_primitive_spec(_WDF_REQUEST_STOP_ACTION_FLAGS::WdfRequestStopActionSuspend) == Some(WdfRequestStopActionFlags::Suspend),
        WdfRequestStopActionFlags::Purge.primitive() == _WDF_REQUEST_STOP_ACTION_FLAGS::WdfRequestStopActionPurge,
        WdfRequestStopActionFlags::from_primitive_spec(_WDF_REQUEST_STOP_ACTION_FLAGS::WdfRequestStopActionPurge) == Some(WdfRequestStopActionFlags::Purge),
        WdfRequestStopActionFlags::RequestCancelable.primitive() == _WDF_REQUEST_STOP_ACTION_FLAGS::WdfRequestStopRequestCancelable,
        WdfRequestStopActionFlags::from_primitive_spec(_WDF_REQUEST_STOP_ACTION_FLAGS::WdfRequestStopRequestCancelable) == Some(WdfRequestStopActionFlags::RequestCancelable),
{
}

/// A flag of the options with which a request is sent.
#[derive(Debug, Copy, Clone, Eq, PartialEq, Structural)]
pub enum WdfRequestSendOptionsFlags {
    Timeout,
    Synchronous,
    IgnoreTargetState,
    SendAndForget,
    ImpersonateClient,
    ImpersonationIgnoreFailure,
}

impl WdfRequestSendOptionsFlags {
    /// The number that the framework uses for this value.
    pub open spec fn primitive(self) -> i32 {
        match self {
            WdfRequestSendOptionsFlags::Timeout => 1,
            WdfRequestSendOptionsFlags::Synchronous => 2,
            WdfRequestSendOptionsFlags::IgnoreTargetState => 4,
            WdfRequestSendOptionsFlags::SendAndForget => 8,
            WdfRequestSendOptionsFlags::ImpersonateClient => 65536,
            WdfRequestSendOptionsFlags::ImpersonationIgnoreFailure => 131072,
        }
    }

    /// The value that the framework writes as `v`, if any.
    pub open spec fn from_primitive_spec(v: i32) -> Option<WdfRequestSendOptionsFlags> {
        if v == 1 {
            Some(WdfRequestSendOptionsFlags::Timeout)
        } else if v == 2 {
            Some(WdfRequestSendOptionsFlags::Synchronous)
        } else if v == 4 {
            Some(WdfRequestSendOptionsFlags::IgnoreTargetState)
        } else if v == 8 {
            Some(WdfRequestSendOptionsFlags::SendAndForget)
        } else if v == 65536 {
            Some(WdfRequestSendOptionsFlags::ImpersonateClient)
        } else if v == 131072 {
            Some(WdfRequestSendOptionsFlags::ImpersonationIgnoreFailure)
        } else {
            None
        }
    }
}

impl From<WdfRequestSendOptionsFlags> for i32 {
    fn from(value: WdfRequestSendOptionsFlags) -> (r: i32) {
        match value {
            WdfRequestSendOptionsFlags::Timeout => 1,
            WdfRequestSendOptionsFlags::Synchronous => 2,
            WdfRequestSendOptionsFlags::IgnoreTargetState => 4,
            WdfRequestSendOptionsFlags::SendAndForget => 8,
            WdfRequestSendOptionsFlags::ImpersonateClient => 65536,
            WdfRequestSendOptionsFlags::ImpersonationIgnoreFailure => 131072,
        }
    }
}

impl FromSpecImpl<WdfRequestSendOptionsFlags> for i32 {
    open spec fn obeys_from_spec() -> bool {
        true
    }

    open spec fn from_spec(v: WdfRequestSendOptionsFlags) -> i32 {
        v.primitive()
    }
}

impl TryFrom<i32> for WdfRequestSendOptionsFlags {
    type Error = TryFromPrimitiveError;

    fn try_from(number: i32) -> (r: Result<WdfRequestSendOptionsFlags, TryFromPrimitiveError>) {
        match number {
            1 => Ok(WdfRequestSendOptionsFlags::Timeout),
            2 => Ok(WdfRequestSendOptionsFlags::Synchronous),
            4 => Ok(WdfRequestSendOptionsFlags::IgnoreTargetState),
            8 => Ok(WdfRequestSendOptionsFlags::SendAndForget),
            65536 => Ok(WdfRequestSendOptionsFlags::ImpersonateClient),
            131072 => Ok(WdfRequestSendOptionsFlags::ImpersonationIgnoreFailure),
            _ => Err(TryFromPrimitiveError { number }),
        }
    }
}

impl TryFromSpecImpl<i32> for WdfRequestSendOptionsFlags {
    open spec fn obeys_try_from_spec() -> bool {
        true
    }

    open spec fn try_from_spec(number: i32) -> Result<WdfRequestSendOptionsFlags, TryFromPrimitiveError> {
        match WdfRequestSendOptionsFlags::from_primitive_spec(number) {
            Some(v) => Ok(v),
            None => Err(TryFromPrimitiveError { number }),
        }
    }
}

/// Converting a `WdfRequestSendOptionsFlags` to its number and back gives it again, and a
/// number that converts to a `WdfRequestSendOptionsFlags` is that value's number.
pub proof fn lemma_wdf_request_send_options_flags_primitive_round_trip(value: WdfRequestSendOptionsFlags, number: i32)
    ensures
        WdfRequestSendOptionsFlags::from_primitive_spec(value.primitive()) == Some(value),
        WdfRequestSendOptionsFlags::from_primitive_spec(number) matches Some(v) ==> v.primitive() == number,
{
}

/// Each `WdfRequestSendOptionsFlags` stands for the framework's `WDF_REQUEST_SEND_OPTIONS_FLAGS` constant of the same
/// name: that constant is its number, and the number converts back to it.
pub proof fn lemma_wdf_request_send_options_flags_framework_numbers()
    ensures
        WdfRequestSendOptionsFlags::Timeout.primitive() == _WDF_REQUEST_SEND_OPTIONS_FLAGS::WDF_REQUEST_SEND_OPTION_TIMEOUT,
        WdfRequestSendOptionsFlags::from_primitive_spec(_WDF_REQUEST_SEND_OPTIONS_FLAGS::WDF_REQUEST_SEND_OPTION_TIMEOUT) == Some(WdfRequestSendOptionsFlags::Timeout),
        WdfRequestSendOptionsFlags::Synchronous.primitive() == _WDF_REQUEST_SEND_OPTIONS_FLAGS::WDF_REQUEST_SEND_OPTION_SYNCHRONOUS,
        WdfRequestSendOptionsFlags::from_primitive_spec(_WDF_REQUEST_SEND_OPTIONS_FLAGS::WDF_REQUEST_SEND_OPTION_SYNCHRONOUS) == Some(WdfRequestSendOptionsFlags::Synchronous),
        WdfRequestSendOptionsFlags::IgnoreTargetState.primitive() == _WDF_REQUEST_SEND_OPTIONS_FLAGS::WDF_REQUEST_SEND_OPTION_IGNORE_TARGET_STATE,
        WdfRequestSendOptionsFlags::from_primitive_spec(_WDF_REQUEST_SEND_OPTIONS_FLAGS::WDF_REQUEST_SEND_OPTION_IGNORE_TARGET_STATE) == Some(WdfRequestSendOptionsFlags::IgnoreTargetState),
        WdfRequestSendOptionsFlags::SendAndForget.primitive() == _WDF_REQUEST_SEND_OPTIONS_FLAGS::WDF_REQUEST_SEND_OPTION_SEND_AND_FORGET,
        WdfRequestSendOptionsFlags::from_primitive_spec(_WDF_REQUEST_SEND_OPTIONS_FLAGS::WDF_REQUEST_SEND_OPTION_SEND_AND_FORGET) == Some(WdfRequestSendOptionsFlags::SendAndForget),
        WdfRequestSendOptionsFlags::ImpersonateClient.primitive() == _WDF_REQUEST_SEND_OPTIONS_FLAGS::WDF_REQUEST_SEND_OPTION_IMPERSONATE_CLIENT,
        WdfRequestSendOptionsFlags::from_primitive_spec(_WDF_REQUEST_SEND_OPTIONS_FLAGS::WDF_REQUEST_SEND_OPTION_IMPERSONATE_CLIENT) == Some(WdfRequestSendOptionsFlags::ImpersonateClient),
        WdfRequestSendOptionsFlags::ImpersonationIgnoreFailure.primitive() == _WDF_REQUEST_SEND_OPTIONS_FLAGS::WDF_REQUEST_SEND_OPTION_IMPERSONATION_IGNORE_FAILURE,
        WdfRequestSendOptionsFlags::from_primitive_spec(_WDF_REQUEST_SEND_OPTIONS_FLAGS::WDF_REQUEST_SEND_OPTION_IMPERSONATION_IGNORE_FAILURE) == Some(WdfRequestSendOptionsFlags::ImpersonationIgnoreFailure),
{
}

impl Default for WdfTriState {
    /// Leaves the setting to the framework.
    fn default() -> (r: Self)
        ensures
            r == WdfTriState::Default,
    {
        WdfTriState::Default
    }
}

/// What is known of an IOCTL that an I/O target failed to carry out.
#[derive(Debug)]
pub struct IoCtlTargetSendInfo {
    /// The IOCTL command code.
    pub command: IoCtlCommand,
    /// The status that the target returned.
    pub ntstatus: NTSTATUS,
    /// The bytes of the input buffer that went with the request.
    pub request: Vec<u8>,
    /// How many bytes the target reported as returned.
    pub byte_returned: usize,
}

/// The state of an I/O target, with the numbers that the framework does not
/// name kept as they are.
#[derive(Debug, Copy, Clone, PartialEq, Eq, Structural)]
pub enum WdfIoTargetState {
    Started,
    Stopped,
    Closed,
    Deleted,
    Purged,
    ClosedForQueryRemove,
    Unknown(WDF_IO_TARGET_STATE),
}

/// Why an operation on an I/O target failed.
#[derive(Debug)]
pub enum WdfIoTargetError {
    /// The device has no I/O target.
    DeviceHasNoIoTarget,
    /// The target is not in a state that allows the operation.
    IllegalState(WdfIoTargetState),
    /// The target refused an IOCTL.
    IoCtlTargetSendError(IoCtlTargetSendInfo),
    /// A buffer descriptor did not describe the expected buffer.
    InvalidIoDescriptor,
}

/// How an I/O target is opened, with the numbers that the framework does not
/// name kept as they are.
#[derive(Debug, Copy, Clone, PartialEq, Eq, Structural)]
pub enum WdfIoTargetOpenType {
    Undefined,
    UseExistingDevice,
    ByName,
    Reopen,
    LocalTargetByFile,
    Unknown(i32),
}

impl WdfIoTargetState {
    /// The number that the framework uses for this state.
    pub open spec fn raw(self) -> WDF_IO_TARGET_STATE {
        match self {
            WdfIoTargetState::Started => _WDF_IO_TARGET_STATE::WdfIoTargetStarted,
            WdfIoTargetState::Stopped => _WDF_IO_TARGET_STATE::WdfIoTargetStopped,
            WdfIoTargetState::Closed => _WDF_IO_TARGET_STATE::WdfIoTargetClosed,
            WdfIoTargetState::Deleted => _WDF_IO_TARGET_STATE::WdfIoTargetDeleted,
            WdfIoTargetState::Purged => _WDF_IO_TARGET_STATE::WdfIoTargetPurged,
            WdfIoTargetState::ClosedForQueryRemove => _WDF_IO_TARGET_STATE::WdfIoTargetClosedForQueryRemove,
            WdfIoTargetState::Unknown(v) => v,
        }
    }

    /// The state that the framework's number `v` stands for.
    pub open spec fn from_raw(v: WDF_IO_TARGET_STATE) -> WdfIoTargetState {
        if v == _WDF_IO_TARGET_STATE::WdfIoTargetStarted {
            WdfIoTargetState::Started
        } else if v == _WDF_IO_TARGET_STATE::WdfIoTargetStopped {
            WdfIoTargetState::Stopped
        } else if v == _WDF_IO_TARGET_STATE::WdfIoTargetClosed {
            WdfIoTargetState::Closed
        } else if v == _WDF_IO_TARGET_STATE::WdfIoTargetDeleted {
            WdfIoTargetState::Deleted
        } else if v == _WDF_IO_TARGET_STATE::WdfIoTargetPurged {
            WdfIoTargetState::Purged
        } else if v == _WDF_IO_TARGET_STATE::WdfIoTargetClosedForQueryRemove {
            WdfIoTargetState::ClosedForQueryRemove
        } else {
            WdfIoTargetState::Unknown(v)
        }
    }

    /// The state names one of the framework's states, or keeps a number
    /// that names none of them.
    pub open spec fn is_canonical(self) -> bool {
        self matches WdfIoTargetState::Unknown(v) ==> !(1 <= v <= 6)
    }
}

impl From<WdfIoTargetState> for WDF_IO_TARGET_STATE {
    fn from(state: WdfIoTargetState) -> (r: WDF_IO_TARGET_STATE) {
        match state {
            WdfIoTargetState::Started => _WDF_IO_TARGET_STATE::WdfIoTargetStarted,
            WdfIoTargetState::Stopped => _WDF_IO_TARGET_STATE::WdfIoTargetStopped,
            WdfIoTargetState::Closed => _WDF_IO_TARGET_STATE::WdfIoTargetClosed,
            WdfIoTargetState::Deleted => _WDF_IO_TARGET_STATE::WdfIoTargetDeleted,
            WdfIoTargetState::Purged => _WDF_IO_TARGET_STATE::WdfIoTargetPurged,
            WdfIoTargetState::ClosedForQueryRemove => {
                _WDF_IO_TARGET_STATE::WdfIoTargetClosedForQueryRemove
            },
            WdfIoTargetState::Unknown(value) => value,
        }
    }
}

impl FromSpecImpl<WdfIoTargetState> for WDF_IO_TARGET_STATE {
    open spec fn obeys_from_spec() -> bool {
        true
    }

    open spec fn from_spec(state: WdfIoTargetState) -> WDF_IO_TARGET_STATE {
        state.raw()
    }
}

impl From<WDF_IO_TARGET_STATE> for WdfIoTargetState {
    fn from(value: WDF_IO_TARGET_STATE) -> (r: WdfIoTargetState) {
        if value == _WDF_IO_TARGET_STATE::WdfIoTargetStarted {
            WdfIoTargetState::Started
        } else if value == _WDF_IO_TARGET_STATE::WdfIoTargetStopped {
            WdfIoTargetState::Stopped
        } else if value == _WDF_IO_TARGET_STATE::WdfIoTargetClosed {
            WdfIoTargetState::Closed
        } else if value == _WDF_IO_TARGET_STATE::WdfIoTargetDeleted {
            WdfIoTargetState::Deleted
        } else if value == _WDF_IO_TARGET_STATE::WdfIoTargetPurged {
            WdfIoTargetState::Purged
        } else if value == _WDF_IO_TARGET_STATE::WdfIoTargetClosedForQueryRemove {
            WdfIoTargetState::ClosedForQueryRemove
        } else {
            WdfIoTargetState::Unknown(value)
        }
    }
}

impl FromSpecImpl<WDF_IO_TARGET_STATE> for WdfIoTargetState {
    open spec fn obeys_from_spec() -> bool {
        true
    }

    open spec fn from_spec(value: WDF_IO_TARGET_STATE) -> WdfIoTargetState {
        WdfIoTargetState::from_raw(value)
    }
}

/// A state read from a number converts back to that number, and a state
/// converted to its number reads back as itself unless it is an `Unknown`
/// that holds the number of a named state (such as `Unknown(1)`, which reads
/// back as `Started`).
pub proof fn lemma_io_target_state_round_trip(state: WdfIoTargetState, value: WDF_IO_TARGET_STATE)
    ensures
        WdfIoTargetState::from_raw(value).raw() == value,
        WdfIoTargetState::from_raw(value).is_canonical(),
        state.is_canonical() ==> WdfIoTargetState::from_raw(state.raw()) == state,
{
}

impl WdfIoTargetOpenType {
    /// The number that the framework uses for this open type.
    pub open spec fn raw(self) -> WDF_IO_TARGET_OPEN_TYPE {
        match self {
            WdfIoTargetOpenType::Undefined => _WDF_IO_TARGET_OPEN_TYPE::WdfIoTargetOpenUndefined,
            WdfIoTargetOpenType::ByName => _WDF_IO_TARGET_OPEN_TYPE::WdfIoTargetOpenByName,
            WdfIoTargetOpenType::Reopen => _WDF_IO_TARGET_OPEN_TYPE::WdfIoTargetOpenReopen,
            WdfIoTargetOpenType::LocalTargetByFile => _WDF_IO_TARGET_OPEN_TYPE::WdfIoTargetOpenLocalTargetByFile,
            WdfIoTargetOpenType::UseExistingDevice => _WDF_IO_TARGET_OPEN_TYPE::WdfIoTargetOpenUseExistingDevice,
            WdfIoTargetOpenType::Unknown(v) => v,
        }
    }

    /// The open type that the framework's number `v` stands for.
    pub open spec fn from_raw(v: WDF_IO_TARGET_OPEN_TYPE) -> WdfIoTargetOpenType {
        if v == _WDF_IO_TARGET_OPEN_TYPE::WdfIoTargetOpenUndefined {
            WdfIoTargetOpenType::Undefined
        } else if v == _WDF_IO_TARGET_OPEN_TYPE::WdfIoTargetOpenByName {
            WdfIoTargetOpenType::ByName
        } else if v == _WDF_IO_TARGET_OPEN_TYPE::WdfIoTargetOpenReopen {
            WdfIoTargetOpenType::Reopen
        } else if v == _WDF_IO_TARGET_OPEN_TYPE::WdfIoTargetOpenLocalTargetByFile {
            WdfIoTargetOpenType::LocalTargetByFile
        } else if v == _WDF_IO_TARGET_OPEN_TYPE::WdfIoTargetOpenUseExistingDevice {
            WdfIoTargetOpenType::UseExistingDevice
        } else {
            WdfIoTargetOpenType::Unknown(v)
        }
    }

    /// The open type names one of the framework's open types, or keeps a
    /// number that names none of them.
    pub open spec fn is_canonical(self) -> bool {
        self matches WdfIoTargetOpenType::Unknown(v) ==> !(0 <= v <= 4)
    }
}

impl From<i32> for WdfIoTargetOpenType {
    fn from(value: i32) -> (r: WdfIoTargetOpenType) {
        if value == _WDF_IO_TARGET_OPEN_TYPE::WdfIoTargetOpenUndefined {
            WdfIoTargetOpenType::Undefined
        } else if value == _WDF_IO_TARGET_OPEN_TYPE::WdfIoTargetOpenByName {
            WdfIoTargetOpenType::ByName
        } else if value == _WDF_IO_TARGET_OPEN_TYPE::WdfIoTargetOpenReopen {
            WdfIoTargetOpenType::Reopen
        } else if value == _WDF_IO_TARGET_OPEN_TYPE::WdfIoTargetOpenLocalTargetByFile {
            WdfIoTargetOpenType::LocalTargetByFile
        } else if value == _WDF_IO_TARGET_OPEN_TYPE::WdfIoTargetOpenUseExistingDevice {
            WdfIoTargetOpenType::UseExistingDevice
        } else {
            WdfIoTargetOpenType::Unknown(value)
        }
    }
}

impl FromSpecImpl<i32> for WdfIoTargetOpenType {
    open spec fn obeys_from_spec() -> bool {
        true
    }

    open spec fn from_spec(value: i32) -> WdfIoTargetOpenType {
        WdfIoTargetOpenType::from_raw(value)
    }
}

impl From<WdfIoTargetOpenType> for i32 {
    fn from(value: WdfIoTargetOpenType) -> (r: i32) {
        match value {
            WdfIoTargetOpenType::Undefined => _WDF_IO_TARGET_OPEN_TYPE::WdfIoTargetOpenUndefined,
            WdfIoTargetOpenType::ByName => _WDF_IO_TARGET_OPEN_TYPE::WdfIoTargetOpenByName,
            WdfIoTargetOpenType::Reopen => _WDF_IO_TARGET_OPEN_TYPE::WdfIoTargetOpenReopen,
            WdfIoTargetOpenType::LocalTargetByFile => {
                _WDF_IO_TARGET_OPEN_TYPE::WdfIoTargetOpenLocalTargetByFile
            },
            WdfIoTargetOpenType::UseExistingDevice => {
                _WDF_IO_TARGET_OPEN_TYPE::WdfIoTargetOpenUseExistingDevice
            },
            WdfIoTargetOpenType::Unknown(val) => val,
        }
    }
}

impl FromSpecImpl<WdfIoTargetOpenType> for i32 {
    open spec fn obeys_from_spec() -> bool {
        true
    }

    open spec fn from_spec(value: WdfIoTargetOpenType) -> i32 {
        value.raw()
    }
}

/// An open type read from a number converts back to that number, and an
/// open type converted to its number reads back as itself unless it is an
/// `Unknown` that holds the number of a named open type.
pub proof fn lemma_io_target_open_type_round_trip(open_type: WdfIoTargetOpenType, value: i32)
    ensures
        WdfIoTargetOpenType::from_raw(value).raw() == value,
        WdfIoTargetOpenType::from_raw(value).is_canonical(),
        open_type.is_canonical() ==> WdfIoTargetOpenType::from_raw(open_type.raw()) == open_type,
{
}

/// The accessor type of framework objects that need none.
pub type WdfTypeAccessorNotNeeded = ();

impl IsWdfType for WdfTypeAccessorNotNeeded {

}

/// Which buffer of a device target a request uses.
pub enum DeviceTargetBuffer {
    Input,
    Output,
}

} // verus!
