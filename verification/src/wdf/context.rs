//! Context descriptors: how a type that the framework allocates beside an
//! object describes itself, and the descriptors that stand for no context.
use vstd::prelude::*;

use crate::op::{AsCtxDescriptor, AsNoneCtxDesc, AsNoneCtxUnique, AsUnique};
use crate::rt::wdk_sys::{Addr, PCWDF_OBJECT_CONTEXT_TYPE_INFO};

verus! {

/// Represents the absence of the context type information of a type.
#[derive(Default)]
pub struct WdfCtxNull;

impl AsUnique for WdfCtxNull {
    /// The null address: there is no context type information.
    fn unique(&self) -> (r: PCWDF_OBJECT_CONTEXT_TYPE_INFO)
        ensures
            r.0 == 0,
    {
        Addr::null()
    }
}

impl AsNoneCtxUnique for WdfCtxNull {

}

/// Represents the absence of a context descriptor: the object has no
/// context.
pub struct WdfCtxNoneDesc;

impl Default for WdfCtxNoneDesc {
    fn default() -> (r: Self) {
        WdfCtxNoneDesc
    }
}

impl AsCtxDescriptor for WdfCtxNoneDesc {
    open spec fn context_type_info() -> Option<PCWDF_OBJECT_CONTEXT_TYPE_INFO> {
        None
    }

    fn descriptor() -> (r: Option<PCWDF_OBJECT_CONTEXT_TYPE_INFO>) {
        None
    }

    fn wdf_type_name() -> (r: Option<&'static str>)
        ensures
            r is None,
    {
        None
    }
}

impl AsNoneCtxDesc for WdfCtxNoneDesc {

}

} // verus!
