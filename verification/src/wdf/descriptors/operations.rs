//! Memory descriptors of a value that the framework reads or fills in place.
use vstd::prelude::*;

use crate::bd::{size_of_as_ulong, ulong_size_of};
use crate::rt::wdk_sys::{
    _WDF_MEMORY_DESCRIPTOR_TYPE, _WDF_MEMORY_DESCRIPTOR__bindgen_ty_1,
    _WDF_MEMORY_DESCRIPTOR__bindgen_ty_1__bindgen_ty_1, Addr, WDF_MEMORY_DESCRIPTOR,
};

verus! {

/// The address at which `value` lies in memory.
///
/// Calls `core::ptr::from_ref` and reads the pointer's address. What is
/// claimed is only what the language guarantees of every reference: it is
/// never null, it is aligned for `T`, and the value it points to lies
/// within the address space (an allocated object never wraps around it).
/// Which address it is depends on where the value lies, and is left
/// unsaid.
#[verifier::external_body]
fn address_of<T>(value: &T) -> (r: Addr)
    ensures
        !r.is_null(),
        (r.0 as int) % (vstd::layout::align_of::<T>() as int) == 0,
        r.0 + vstd::layout::size_of::<T>() <= usize::MAX + 1,
{
    Addr(core::ptr::from_ref(value) as usize)
}

/// `desc` describes, as a plain buffer, a value of type `T` that lies in
/// memory: a non-null buffer of `size_of::<T>()` bytes, at an address
/// aligned for `T`, that lies within the address space.
pub open spec fn describes_value_of<T>(desc: WDF_MEMORY_DESCRIPTOR) -> bool {
    &&& desc.Type == _WDF_MEMORY_DESCRIPTOR_TYPE::WdfMemoryDescriptorTypeBuffer
    &&& !desc.u.BufferType.Buffer.is_null()
    &&& (desc.u.BufferType.Buffer.0 as int) % (vstd::layout::align_of::<T>() as int) == 0
    &&& desc.u.BufferType.Buffer.0 + vstd::layout::size_of::<T>() <= usize::MAX + 1
    &&& desc.u.BufferType.Length == ulong_size_of::<T>()
}

/// A descriptor of the buffer that holds `elem`, for the framework to read.
pub fn build_for_data_type<T>(elem: &T) -> (r: WDF_MEMORY_DESCRIPTOR)
    ensures
        describes_value_of::<T>(r),
{
    WDF_MEMORY_DESCRIPTOR {
        Type: _WDF_MEMORY_DESCRIPTOR_TYPE::WdfMemoryDescriptorTypeBuffer,
        u: _WDF_MEMORY_DESCRIPTOR__bindgen_ty_1 {
            BufferType: _WDF_MEMORY_DESCRIPTOR__bindgen_ty_1__bindgen_ty_1 {
                Buffer: address_of(elem),
                Length: size_of_as_ulong::<T>(),
            },
        },
    }
}

/// A descriptor of the buffer that holds `elem`, for the framework to fill.
pub fn build_for_data_type_mut<T>(elem: &mut T) -> (r: WDF_MEMORY_DESCRIPTOR)
    ensures
        describes_value_of::<T>(r),
        *final(elem) == *old(elem),
{
    build_for_data_type(&*elem)
}

/// Whether `desc` describes a buffer of exactly the size of a `T`, so that
/// its contents can be read as a `T`.
pub fn length_fits<T>(desc: &WDF_MEMORY_DESCRIPTOR) -> (r: bool)
    ensures
        r == (desc.u.BufferType.Length == ulong_size_of::<T>()),
{
    desc.u.BufferType.Length == size_of_as_ulong::<T>()
}

} // verus!
