use storages::allocator::{AllocError, Global};
use storages::boxed::{Box, RawBox};
use storages::buffer::{Buffer, UnmanagedBuffer};
use storages::storage::AllocatorStorage;

#[test]
fn storage_for_one_value_is_unwritten() {
    let s = AllocatorStorage::<u32, Global>::new(Global).unwrap();
    assert_eq!(s.as_slice(&()).len(), 1);
    assert!(s.as_slice(&())[0].is_none());
    s.free(&());
}

#[test]
fn zeroed_storage_holds_zero() {
    let s = AllocatorStorage::<i64, Global>::new_zeroed(Global).unwrap();
    assert_eq!(s.as_slice(&())[0], Some(0));
    let s = AllocatorStorage::<bool, Global>::new_slice_zeroed(Global, 2).unwrap();
    assert_eq!(s.as_slice(&()), &[Some(false), Some(false)]);
}

#[test]
fn storage_slice_has_the_requested_length() {
    let s = AllocatorStorage::<u16, Global>::new_slice(Global, 6).unwrap();
    assert_eq!(s.as_slice(&()).len(), 6);
    let s = AllocatorStorage::<(), Global>::new_slice(Global, 6).unwrap();
    assert_eq!(s.as_slice(&()).len(), 6);
}

#[test]
fn storage_slice_overflow_is_an_error() {
    let r = AllocatorStorage::<u32, Global>::new_slice(Global, usize::MAX);
    assert!(matches!(r, Err(AllocError)));
}

#[test]
fn box_over_storage_needs_no_external_data() {
    let s = AllocatorStorage::<u8, Global>::new(Global).unwrap();
    let b = Box::new_in(200u8, s, ());
    assert_eq!(*b, 200);
    b.free();
}

#[test]
fn raw_box_over_storage_slice() {
    let s = AllocatorStorage::<char, Global>::new_slice(Global, 2).unwrap();
    let mut values = RawBox::new_uninit_slice_in(s);
    values.write(&(), 1, 'b');
    values.write(&(), 0, 'a');
    let values = values.assume_init();
    assert_eq!((*values.get(&(), 0), *values.get(&(), 1)), ('a', 'b'));
    values.free(&());
}
