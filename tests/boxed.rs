use storages::allocator::Global;
use storages::boxed::{Box, RawBox, SliceBox};
use storages::buffer::{AllocatedBuffer, ArrayBuffer, Buffer};

#[test]
fn new() {
    let five = Box::new(5);

    assert_eq!(*five, 5);
}

#[test]
fn box_new_holds_the_value_for_several_types() {
    let b = Box::new(String::from("boxed"));
    assert_eq!(b.as_str(), "boxed");
    let v = Box::new(vec![1u8, 2, 3]);
    assert_eq!(*v, vec![1u8, 2, 3]);
    let unit = Box::new(());
    assert_eq!(*unit, ());
}

#[test]
fn raw_box_value_then_free() {
    let five = RawBox::new(5);
    assert_eq!(*five.as_ref(&Global), 5);
    five.free(&Global);
}

#[test]
fn raw_box_new_in_allocated_buffer() {
    let buffer = AllocatedBuffer::new_in(&Global).unwrap();
    let five = RawBox::new_in(5u32, buffer, &Global);
    assert_eq!(*five.as_ref(&Global), 5);
    assert!(five.buffer().as_slice(&Global)[0].is_some());
    five.free(&Global);
}

#[test]
fn raw_box_as_mut_changes_the_value() {
    let mut b = RawBox::new(1u64);
    *b.as_mut(&Global) += 41;
    assert_eq!(*b.as_ref(&Global), 42);
    b.free(&Global);
}

#[test]
fn raw_box_uninit_then_init() {
    let mut five = RawBox::<u32>::new_uninit();
    assert!(five.as_slots(&Global)[0].is_none());
    five.write(&Global, 0, 5);
    let five = five.assume_init();
    assert_eq!(*five.as_ref(&Global), 5);
    five.free(&Global);
}

#[test]
fn raw_box_zeroed_reads_zero() {
    let zero = RawBox::<u32>::new_zeroed();
    let zero = zero.assume_init();
    assert_eq!(*zero.as_ref(&Global), 0);
    zero.free(&Global);
}

#[test]
fn raw_box_uninit_slice_written_in_order() {
    let mut values = RawBox::<u32>::new_uninit_slice(3);
    assert_eq!(values.len(&Global), 3);
    values.write(&Global, 0, 1);
    values.write(&Global, 1, 2);
    values.write(&Global, 2, 3);
    let values = values.assume_init();
    let read: Vec<u32> = (0..3).map(|i| *values.get(&Global, i)).collect();
    assert_eq!(read, vec![1, 2, 3]);
    values.free(&Global);
}

#[test]
fn raw_box_uninit_slice_written_out_of_order() {
    let mut values = RawBox::<i64>::new_uninit_slice(4);
    values.write(&Global, 3, -4);
    values.write(&Global, 0, -1);
    values.write(&Global, 2, -3);
    values.write(&Global, 1, -2);
    let values = values.assume_init();
    let read: Vec<i64> = (0..4).map(|i| *values.get(&Global, i)).collect();
    assert_eq!(read, vec![-1, -2, -3, -4]);
    values.free(&Global);
}

#[test]
fn raw_box_zeroed_slice_reads_zeros() {
    let values = RawBox::<u32>::new_zeroed_slice(3);
    let values = values.assume_init();
    let read: Vec<u32> = (0..values.len(&Global)).map(|i| *values.get(&Global, i)).collect();
    assert_eq!(read, vec![0, 0, 0]);
    values.free(&Global);
}

#[test]
fn raw_box_empty_slice() {
    let values = RawBox::<u32>::new_uninit_slice(0);
    assert_eq!(values.len(&Global), 0);
    values.free(&Global);
}

#[test]
fn raw_box_slice_in_inline_array() {
    let buffer = ArrayBuffer::<u32, 3>::uninit();
    let mut values = RawBox::new_uninit_slice_in(buffer);
    values.write(&(), 0, 1);
    values.write(&(), 1, 2);
    values.write(&(), 2, 3);
    let values = values.assume_init();
    let read: Vec<u32> = (0..3).map(|i| *values.get(&(), i)).collect();
    assert_eq!(read, vec![1, 2, 3]);
}

#[test]
fn box_uninit_slice_written_then_read() {
    let mut values = Box::<u32>::new_uninit_slice(3);
    values.write(0, 1);
    values.write(1, 2);
    values.write(2, 3);
    let values = values.assume_init();
    assert_eq!(values.len(), 3);
    let read: Vec<u32> = (0..3).map(|i| *values.get(i)).collect();
    assert_eq!(read, vec![1, 2, 3]);
    values.free();
}

#[test]
fn box_uninit_then_init() {
    let mut five = Box::<u32>::new_uninit();
    five.write(5);
    let five = five.assume_init();
    assert_eq!(*five, 5);
}

#[test]
fn box_zeroed_reads_zero() {
    let zero = Box::<u64>::new_zeroed().assume_init();
    assert_eq!(*zero, 0);
    let zeros = Box::<u8>::new_zeroed_slice(2).assume_init();
    assert_eq!((*zeros.get(0), *zeros.get(1)), (0, 0));
}

#[test]
fn box_in_inline_array_needs_no_free() {
    let ten = Box::new_in(10, ArrayBuffer::<i32, 1>::uninit(), ());
    assert_eq!(*ten, 10);
    let (raw, data) = ten.into_raw();
    assert_eq!(data, ());
    assert_eq!(*raw.as_ref(&()), 10);
}

#[test]
fn box_new_in_allocated_buffer_then_free() {
    let buffer = AllocatedBuffer::new_in(&Global).unwrap();
    let five = Box::new_in(5u16, buffer, Global);
    assert_eq!(*five, 5);
    five.free();
}

#[test]
fn box_into_raw_and_back() {
    let b = Box::new(7u8);
    let (raw, data) = b.into_raw();
    let b = Box::from_raw(raw, data);
    assert_eq!(*b, 7);
}

#[test]
fn inline_array_has_n_unwritten_slots() {
    let buffer = ArrayBuffer::<u8, 4>::uninit();
    let slots = buffer.as_slice(&());
    assert_eq!(slots.len(), 4);
    assert!(slots.iter().all(|s| s.is_none()));
}

#[test]
fn slices_of_every_length_hold_what_was_written_in_order() {
    for n in 0..12usize {
        let written: Vec<u64> = (0..n as u64).map(|i| i * i + 7).collect();
        let mut raw = RawBox::<u64>::new_uninit_slice(n);
        assert_eq!(raw.len(&Global), n);
        for (i, v) in written.iter().enumerate() {
            raw.write(&Global, i, *v);
        }
        let raw = raw.assume_init();
        let read: Vec<u64> = (0..n).map(|i| *raw.get(&Global, i)).collect();
        assert_eq!(read, written);
        raw.free(&Global);
    }
}

#[test]
fn box_set_replaces_one_value() {
    let mut values = Box::<i32>::new_uninit_slice(3);
    values.write(0, 1);
    values.write(1, 2);
    values.write(2, 3);
    let values = values.assume_init().set(1, 20);
    let read: Vec<i32> = (0..3).map(|i| *values.get(i)).collect();
    assert_eq!(read, vec![1, 20, 3]);
    let one = Box::new(4u8).set(9);
    assert_eq!(*one, 9);
}

#[test]
fn box_free_hands_back_the_block() {
    let b = Box::new(7u64);
    let handed = b.free();
    let align = std::mem::align_of::<u64>();
    assert_eq!(handed, Some((storages::allocator::Block { addr: align, len: 8 }, storages::allocator::Layout { size: 8, align })));
}

#[test]
fn empty_boxed_slice_becomes_a_slice_box() {
    let values = Box::<u32>::new_uninit_slice(0).assume_init();
    assert_eq!(values.len(), 0);
    assert_eq!(values.free(), Some((storages::allocator::Block { addr: std::mem::align_of::<u32>(), len: 0 }, storages::allocator::Layout { size: 0, align: std::mem::align_of::<u32>() })));
}

#[test]
fn zero_sized_slices_keep_the_requested_length() {
    let mut units = Box::<()>::new_uninit_slice(5);
    for i in 0..5 {
        units.write(i, ());
    }
    let units = units.assume_init();
    assert_eq!(units.len(), 5);
    assert_eq!(units.free(), None);
    let raw = RawBox::<()>::new_zeroed_slice(7);
    assert_eq!(raw.len(&Global), 7);
    assert_eq!(raw.free(&Global), None);
}

#[test]
fn slice_box_over_inline_array() {
    let mut values = Box::<u8, ArrayBuffer<u8, 2>, ()>::new_uninit_slice_in(ArrayBuffer::uninit(), ());
    values.write(1, 6);
    values.write(0, 5);
    let values = values.assume_init();
    assert_eq!((values.len(), *values.get(0), *values.get(1)), (2, 5, 6));
    let (raw, data) = values.into_raw();
    let values = SliceBox::from_raw(raw, data);
    assert_eq!(*values.get(1), 6);
}
