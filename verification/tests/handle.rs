use swdk::op::{AsRaw, AsRawWithBorrow, IntoRaw};
use swdk::{Handle, HandleMut};

#[test]
fn can_create_handle() {
    let elem = 123u32;
    let h = Handle::new(&elem);

    assert_eq!(*h, 123);
}

#[test]
fn as_ref_returns_inner() {
    let elem = 55u32;
    let h = Handle::new(&elem);

    assert_eq!(*h.as_ref(), 55);
}

#[test]
fn raw_returns_copy() {
    let elem = 88u32;
    let h = Handle::new(&elem);

    assert_eq!(h.raw(), 88);
}

#[test]
fn handle_raw_accessors_agree() {
    let elem = 7u32;
    let h = Handle::new(&elem);

    assert_eq!(h.raw_with_borrow(), 7);
    assert_eq!(*h.clone().into_inner().unwrap(), 7);
    assert_eq!(h.into_raw(), 7);
}

#[test]
fn handle_mut_converts_to_shared_handle() {
    let mut elem = 9u32;
    let h = HandleMut::new(&mut elem);

    assert_eq!(*h, 9);
    assert_eq!(h.raw(), 9);
    let shared: Handle<u32> = Handle::from(h);
    assert_eq!(shared.raw(), 9);
}
