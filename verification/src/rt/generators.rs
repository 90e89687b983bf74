//! Canned values that the emulated runtime hands out.
use vstd::prelude::*;

verus! {

/// A HID collection information record, as an emulated device reports it.
pub struct FakeResponse {
    Size: u32,
    CollectionType: u32,
    Usage: u32,
    UsagePage: u32,
    ParentId: u32,
    NumberOfChildren: u32,
    NumberOfDescendants: u32,
}

} // verus!
