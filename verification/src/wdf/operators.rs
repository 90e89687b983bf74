//! The traits that relate the framework's resources: how a configuration
//! becomes a framework descriptor, how a wrapper gives up what it wraps,
//! and how a context type describes itself to the framework.
use vstd::prelude::*;

use crate::rt::wdk_sys::{
    Addr, DEVICE_INIT, DEVICE_OBJECT__, DRIVER_OBJECT__, IRP__, NTSTATUS,
    PCWDF_OBJECT_CONTEXT_TYPE_INFO, ULONG, WDFCOLLECTION__, WDFDEVICE_INIT, WDFDEVICE__,
    WDFDRIVER__, WDFIOTARGET__, WDFMEMORY__, WDFOBJECT__, WDFQUEUE__, WDFREQUEST__, WDFSTRING__,
    WDF_MEMORY_DESCRIPTOR,
};

verus! {

/// The result of a framework operation: a value, or the failing `NTSTATUS`.
pub type NtResult<T = ()> = Result<T, NTSTATUS>;

/// Marks the types that a [`crate::Handle`] may refer to: the framework's
/// objects and the values it passes by address.
pub trait IsWdfType {

}

impl IsWdfType for Addr {

}

impl IsWdfType for ULONG {

}

impl IsWdfType for WDFDEVICE_INIT {

}

impl IsWdfType for DEVICE_INIT {

}

impl IsWdfType for DRIVER_OBJECT__ {

}

impl IsWdfType for DEVICE_OBJECT__ {

}

impl IsWdfType for IRP__ {

}

impl IsWdfType for WDFOBJECT__ {

}

impl IsWdfType for WDFDEVICE__ {

}

impl IsWdfType for WDFDRIVER__ {

}

impl IsWdfType for WDFMEMORY__ {

}

impl IsWdfType for WDFREQUEST__ {

}

impl IsWdfType for WDFQUEUE__ {

}

impl IsWdfType for WDFIOTARGET__ {

}

impl IsWdfType for WDFCOLLECTION__ {

}

impl IsWdfType for WDFSTRING__ {

}

impl IsWdfType for WDF_MEMORY_DESCRIPTOR {

}

/// A configuration that builds the framework descriptor it stands for.
pub trait AsBuilder {
    /// The framework descriptor that [`AsBuilder::build`] produces.
    type Descriptor;

    /// Builds the framework descriptor of the current configuration.
    #[must_use]
    fn build(&self) -> Self::Descriptor;
}

/// A builder whose descriptor may describe its own data for writing.
pub trait AsBuilderMut: AsBuilder {
    /// Builds the descriptor of the current data, for the framework to fill.
    fn build_mut(&mut self) -> Self::Descriptor;
}

/// A wrapper that gives up the value it wraps.
pub trait IntoInner<T> {
    /// Consumes the wrapper and returns the inner value.
    fn into_inner(self) -> T;
}

/// A wrapper of a raw framework value that can hand out a copy of it.
pub trait AsRawWdf<T: Copy> {
    /// A copy of the wrapped raw value.
    fn as_raw(&self) -> T;
}

/// A reference to a value that can hand out a copy of it.
pub trait AsRaw<T: Copy> {
    /// A copy of the referenced value.
    fn raw(&self) -> T;
}

/// A borrowed value that can hand out a copy of it.
pub trait AsRawWithBorrow<T: Copy> {
    /// A copy of the borrowed value.
    fn raw_with_borrow(&self) -> T;
}

/// A reference that can be turned into a copy of what it refers to.
pub trait IntoRaw<O: Copy>: Sized {
    /// Consumes the reference and returns a copy of what it refers to.
    fn into_raw(self) -> O;
}

/// A status that can be shown by its name and by its hexadecimal code.
pub trait AsNtStatus: Sized {
    /// The symbolic name of the status.
    fn fmt_status(self) -> &'static str;

    /// The status code in hexadecimal.
    fn fmt_hex(self) -> String;
}

/// A type that can give the address of the static
/// `WDF_OBJECT_CONTEXT_TYPE_INFO` that describes a context type to the
/// framework.
pub trait AsUnique {
    /// The address of the context type information (null for none).
    fn unique(&self) -> PCWDF_OBJECT_CONTEXT_TYPE_INFO;
}

/// An [`AsUnique`] that stands for the absence of a context type.
pub trait AsNoneCtxUnique: AsUnique {

}

/// Describes the context that the framework allocates with an object.
pub trait AsCtxDescriptor: Sized + Default {
    /// The address of the context type information, if the type has one.
    spec fn context_type_info() -> Option<PCWDF_OBJECT_CONTEXT_TYPE_INFO>;

    /// The address of the context type information, if the type has one.
    fn descriptor() -> (r: Option<PCWDF_OBJECT_CONTEXT_TYPE_INFO>)
        ensures
            r == Self::context_type_info(),
    ;

    /// The name of the context type, if the type has one.
    fn wdf_type_name() -> Option<&'static str>;
}

/// An [`AsCtxDescriptor`] that stands for the absence of a context.
pub trait AsNoneCtxDesc<O = ()>: AsCtxDescriptor {

}

} // verus!
