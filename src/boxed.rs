//! Owned boxes over a [`Buffer`]: the raw box, which is handed the external data at every
//! call, and the managed box, which keeps it.
use crate::allocator::{Block, Global, Layout};
use crate::buffer::{
    all_written, uninit_slots, written_values, zeroed_slots, AllocatedBuffer, Buffer,
    UnmanagedBuffer, Zeroed,
};
use core::marker::PhantomData;
use vstd::layout::size_of;
use vstd::prelude::*;

verus! {

/// A thin wrapper around a buffer that holds values of `T`.
///
/// As a buffer may need external data, every operation that reaches the buffer takes the
/// external data as an argument; for an [`AllocatedBuffer<T, A>`] that is the allocator `A`.
/// A raw box does not give its memory back by itself: call [`RawBox::free`] when done.
///
/// The box starts out with the slots of its buffer as they are, written or not; reading a slot
/// asks that it has been written.
pub struct RawBox<T, B = AllocatedBuffer<T>> where B: Buffer<T> {
    buffer: B,
    marker: PhantomData<T>,
}

impl<T, B: Buffer<T>> View for RawBox<T, B> {
    type V = Seq<Option<T>>;

    /// The slots of the box, `None` where nothing has been written.
    open spec fn view(&self) -> Seq<Option<T>> {
        self.backing().slots()
    }
}

impl<T, B: Buffer<T>> RawBox<T, B> {
    /// The buffer that the box wraps.
    pub closed spec fn backing(&self) -> B {
        self.buffer
    }

    /// The wrapped buffer is well-formed.
    pub open spec fn wf(&self) -> bool {
        self.backing().wf()
    }

    /// Whether the box holds a value: its first slot has been written.
    pub open spec fn holds_value(&self) -> bool {
        self@.len() >= 1 && self@[0] is Some
    }

    /// The value in the first slot.
    pub open spec fn value(&self) -> T {
        self@[0]->Some_0
    }
}

/// The buffer for one value in the global allocator; the global allocator grants every request.
fn global_allocator_storage<T>() -> (r: AllocatedBuffer<T>)
    ensures
        r.wf(),
        r.slots() == uninit_slots::<T>(1),
        (r.held_block() is Some) <==> size_of::<T>() > 0,
{
    AllocatedBuffer::new().unwrap()
}

/// A block of exactly `size_of::<T>() * len` bytes holds `len` items of a sized `T`.
proof fn lemma_whole_items<T>(len: usize)
    ensures
        size_of::<T>() > 0 ==> (size_of::<T>() * len) as nat / size_of::<T>() == len,
{
    if size_of::<T>() > 0 {
        let s = size_of::<T>();
        assert((s * len) as nat / s == len) by (nonlinear_arith)
            requires
                s > 0,
        ;
    }
}

/// Construction of boxed values with a buffer backed by the global allocator.
impl<T> RawBox<T> {
    /// Allocates memory in the global allocator and places `value` into it. Nothing is
    /// allocated where `T` is zero-sized.
    pub fn new(value: T) -> (r: Self)
        ensures
            r.wf(),
            r@ == seq![Some(value)],
            (r.backing().held_block() is Some) <==> size_of::<T>() > 0,
    {
        Self::new_in(value, global_allocator_storage(), &Global)
    }

    /// A raw box in the global allocator whose slot is not written yet.
    pub fn new_uninit() -> (r: Self)
        ensures
            r.wf(),
            r@ == uninit_slots::<T>(1),
            (r.backing().held_block() is Some) <==> size_of::<T>() > 0,
    {
        Self::new_uninit_in(global_allocator_storage())
    }

    /// A raw box in the global allocator whose slot holds the all-zero value.
    pub fn new_zeroed() -> (r: Self) where T: Zeroed
        ensures
            r.wf(),
            r@ == zeroed_slots::<T>(1),
            (r.backing().held_block() is Some) <==> size_of::<T>() > 0,
    {
        Self::new_uninit_in(AllocatedBuffer::new_zeroed().unwrap())
    }

    /// A boxed slice of `len` values in the global allocator, none of them
    /// written. Nothing is allocated where `T` is zero-sized.
    pub fn new_uninit_slice(len: usize) -> (r: Self)
        requires
            size_of::<T>() * len <= isize::MAX,
        ensures
            r.wf(),
            r@ == uninit_slots::<T>(len as nat),
            (r.backing().held_block() is Some) <==> size_of::<T>() > 0,
    {
        proof {
            lemma_whole_items::<T>(len);
        }
        RawBox { buffer: AllocatedBuffer::new_slice(&Global, len).unwrap(), marker: PhantomData }
    }

    /// A boxed slice of `len` values in the global allocator, each holding
    /// the all-zero value. Nothing is allocated where `T` is zero-sized.
    pub fn new_zeroed_slice(len: usize) -> (r: Self) where T: Zeroed
        requires
            size_of::<T>() * len <= isize::MAX,
        ensures
            r.wf(),
            r@ == zeroed_slots::<T>(len as nat),
            (r.backing().held_block() is Some) <==> size_of::<T>() > 0,
    {
        proof {
            lemma_whole_items::<T>(len);
        }
        RawBox {
            buffer: AllocatedBuffer::new_slice_zeroed(&Global, len).unwrap(),
            marker: PhantomData,
        }
    }
}

/// Construction in a provided buffer.
impl<T, B: Buffer<T>> RawBox<T, B> {
    /// Places `value` in the first slot of `buffer`.
    pub fn new_in(value: T, buffer: B, data: &B::ExternalData) -> (r: Self)
        requires
            buffer.wf(),
            buffer.slots().len() >= 1,
        ensures
            r.wf(),
            r@ == buffer.slots().update(0, Some(value)),
            r.backing().held_block() == buffer.held_block(),
    {
        let mut buffer = buffer;
        *buffer.slot_mut(data, 0) = Some(value);
        RawBox { buffer, marker: PhantomData }
    }

    /// Wraps `buffer`, whose slot has not been written yet.
    pub fn new_uninit_in(buffer: B) -> (r: Self)
        ensures
            r.backing() == buffer,
    {
        RawBox { buffer, marker: PhantomData }
    }

    /// Wraps `buffer`, whose slots have not been written yet.
    pub fn new_uninit_slice_in(buffer: B) -> (r: Self)
        ensures
            r.backing() == buffer,
    {
        RawBox { buffer, marker: PhantomData }
    }

    /// Wraps `buffer`, all of whose slots have been written.
    pub fn from_buffer(buffer: B) -> (r: Self)
        requires
            all_written(buffer.slots()),
        ensures
            r.backing() == buffer,
    {
        RawBox { buffer, marker: PhantomData }
    }

    /// Marks the box as initialized: every slot has been written. The buffer is handed over
    /// as it is, without a copy.
    pub fn assume_init(self) -> (r: Self)
        requires
            all_written(self@),
        ensures
            r.backing() == self.backing(),
            all_written(r@),
    {
        RawBox { buffer: self.buffer, marker: PhantomData }
    }

    /// Gives the buffer's memory back through `data`, which must be the allocator that handed
    /// it out or an equivalent one; returns the block and layout handed to it. The values in
    /// the box are not dropped first.
    pub fn free(self, data: &B::ExternalData) -> (r: Option<(Block, Layout)>) where B: UnmanagedBuffer<T>
        requires
            self.wf(),
        ensures
            r == self.backing().release_request(),
    {
        self.buffer.free(data)
    }

    /// The buffer that the box wraps.
    pub fn buffer(&self) -> (r: &B)
        ensures
            *r == self.backing(),
    {
        &self.buffer
    }

    /// The buffer that the box wraps, for changing it.
    pub fn buffer_mut(&mut self) -> (r: &mut B)
        ensures
            *r == old(self).backing(),
            final(self).backing() == *final(r),
    {
        &mut self.buffer
    }

    /// The value in the box.
    pub fn as_ref(&self, data: &B::ExternalData) -> (r: &T)
        requires
            self.wf(),
            self.holds_value(),
        ensures
            *r == self.value(),
    {
        self.buffer.as_slice(data)[0].as_ref().unwrap()
    }

    /// The value in the box, for changing it.
    pub fn as_mut(&mut self, data: &B::ExternalData) -> (r: &mut T)
        requires
            old(self).wf(),
            old(self).holds_value(),
        ensures
            *r == old(self).value(),
            final(self).wf(),
            final(self)@ == old(self)@.update(0, Some(*final(r))),
            final(self).backing().held_block() == old(self).backing().held_block(),
    {
        self.buffer.slot_mut(data, 0).as_mut().unwrap()
    }

    /// The slots of the box, written or not.
    pub fn as_slots(&self, data: &B::ExternalData) -> (r: &[Option<T>])
        requires
            self.wf(),
        ensures
            r@ == self@,
    {
        self.buffer.as_slice(data)
    }

    /// How many slots the box has.
    pub fn len(&self, data: &B::ExternalData) -> (r: usize)
        requires
            self.wf(),
        ensures
            r == self@.len(),
    {
        self.buffer.as_slice(data).len()
    }

    /// The value in slot `i`, which has been written.
    pub fn get(&self, data: &B::ExternalData, i: usize) -> (r: &T)
        requires
            self.wf(),
            i < self@.len(),
            self@[i as int] is Some,
        ensures
            *r == self@[i as int]->Some_0,
    {
        self.buffer.as_slice(data)[i].as_ref().unwrap()
    }

    /// Writes `value` into slot `i`; the other slots stay as they are.
    pub fn write(&mut self, data: &B::ExternalData, i: usize, value: T)
        requires
            old(self).wf(),
            i < old(self)@.len(),
        ensures
            final(self).wf(),
            final(self)@ == old(self)@.update(i as int, Some(value)),
            final(self).backing().held_block() == old(self).backing().held_block(),
    {
        *self.buffer.slot_mut(data, i) = Some(value);
    }
}

/// An owned box for one value that keeps the external data of its buffer next to it, so that
/// every access is self-sufficient. Its buffer has exactly one slot, and that slot is written;
/// dereferencing the box gives the value.
///
/// The slot itself is dropped with the box. Where the buffer took a block from an allocator,
/// [`Box::free`] gives the block back.
#[verifier::reject_recursive_types(D)]
pub struct Box<T, B = AllocatedBuffer<T>, D = Global> where B: Buffer<T, ExternalData = D> {
    raw: RawBox<T, B>,
    data: D,
}

/// A managed box for one value whose slot may not have been written yet;
/// [`UninitBox::assume_init`] turns it into a [`Box`] once it has.
#[verifier::reject_recursive_types(D)]
pub struct UninitBox<T, B = AllocatedBuffer<T>, D = Global> where B: Buffer<T, ExternalData = D> {
    raw: RawBox<T, B>,
    data: D,
}

/// An owned boxed slice that keeps the external data of its buffer next to it. It may hold any
/// number of values, none included, and every one of its slots is written.
///
/// The slots themselves are dropped with the box. Where the buffer took a block from an
/// allocator, [`SliceBox::free`] gives the block back.
#[verifier::reject_recursive_types(D)]
pub struct SliceBox<T, B = AllocatedBuffer<T>, D = Global> where B: Buffer<T, ExternalData = D> {
    raw: RawBox<T, B>,
    data: D,
}

/// A managed boxed slice whose slots may not have been written yet;
/// [`UninitSliceBox::assume_init`] turns it into a [`SliceBox`] once they all have.
#[verifier::reject_recursive_types(D)]
pub struct UninitSliceBox<T, B = AllocatedBuffer<T>, D = Global> where B: Buffer<T, ExternalData = D> {
    raw: RawBox<T, B>,
    data: D,
}

impl<T, B: Buffer<T, ExternalData = D>, D> Box<T, B, D> {
    #[verifier::type_invariant]
    spec fn inv(self) -> bool {
        &&& self.raw.wf()
        &&& self.raw@.len() == 1
        &&& self.raw@[0] is Some
    }

    /// The raw box inside.
    pub closed spec fn raw_box(self) -> RawBox<T, B> {
        self.raw
    }

    /// The external data kept next to the buffer.
    pub closed spec fn external_data(self) -> D {
        self.data
    }

    /// The value in the box.
    pub open spec fn value(self) -> T {
        self.raw_box().value()
    }
}

impl<T, B: Buffer<T, ExternalData = D>, D> UninitBox<T, B, D> {
    /// The wrapped buffer is well-formed and has exactly one slot.
    pub open spec fn wf(self) -> bool {
        self.raw_box().wf() && self.raw_box()@.len() == 1
    }

    /// The raw box inside.
    pub closed spec fn raw_box(self) -> RawBox<T, B> {
        self.raw
    }

    /// The external data kept next to the buffer.
    pub closed spec fn external_data(self) -> D {
        self.data
    }
}

impl<T, B: Buffer<T, ExternalData = D>, D> SliceBox<T, B, D> {
    #[verifier::type_invariant]
    spec fn inv(self) -> bool {
        &&& self.raw.wf()
        &&& all_written(self.raw@)
    }

    /// The raw box inside.
    pub closed spec fn raw_box(self) -> RawBox<T, B> {
        self.raw
    }

    /// The external data kept next to the buffer.
    pub closed spec fn external_data(self) -> D {
        self.data
    }

    /// The values in the box, one for each slot.
    pub open spec fn values(self) -> Seq<T> {
        written_values(self.raw_box()@)
    }
}

impl<T, B: Buffer<T, ExternalData = D>, D> UninitSliceBox<T, B, D> {
    /// The wrapped buffer is well-formed.
    pub open spec fn wf(self) -> bool {
        self.raw_box().wf()
    }

    /// The raw box inside.
    pub closed spec fn raw_box(self) -> RawBox<T, B> {
        self.raw
    }

    /// The external data kept next to the buffer.
    pub closed spec fn external_data(self) -> D {
        self.data
    }
}

/// Construction with a buffer backed by the global allocator.
impl<T> Box<T> {
    /// Allocates memory in the global allocator and places `value` into it. Nothing is
    /// allocated where `T` is zero-sized.
    pub fn new(value: T) -> (r: Self)
        ensures
            r.value() == value,
            r.raw_box()@ == seq![Some(value)],
            (r.raw_box().backing().held_block() is Some) <==> size_of::<T>() > 0,
    {
        let raw = RawBox::new(value);
        Box { raw, data: Global }
    }

    /// A box in the global allocator whose slot is not written yet.
    pub fn new_uninit() -> (r: UninitBox<T>)
        ensures
            r.wf(),
            r.raw_box()@ == uninit_slots::<T>(1),
            (r.raw_box().backing().held_block() is Some) <==> size_of::<T>() > 0,
    {
        UninitBox { raw: RawBox::new_uninit(), data: Global }
    }

    /// A box in the global allocator whose slot holds the all-zero value.
    pub fn new_zeroed() -> (r: UninitBox<T>) where T: Zeroed
        ensures
            r.wf(),
            r.raw_box()@ == zeroed_slots::<T>(1),
            (r.raw_box().backing().held_block() is Some) <==> size_of::<T>() > 0,
    {
        UninitBox { raw: RawBox::new_zeroed(), data: Global }
    }

    /// A boxed slice of `len` values in the global allocator, none of them written. Nothing is
    /// allocated where `T` is zero-sized.
    pub fn new_uninit_slice(len: usize) -> (r: UninitSliceBox<T>)
        requires
            size_of::<T>() * len <= isize::MAX,
        ensures
            r.wf(),
            r.raw_box()@ == uninit_slots::<T>(len as nat),
            (r.raw_box().backing().held_block() is Some) <==> size_of::<T>() > 0,
    {
        UninitSliceBox { raw: RawBox::new_uninit_slice(len), data: Global }
    }

    /// A boxed slice of `len` values in the global allocator, each holding the all-zero value.
    /// Nothing is allocated where `T` is zero-sized.
    pub fn new_zeroed_slice(len: usize) -> (r: UninitSliceBox<T>) where T: Zeroed
        requires
            size_of::<T>() * len <= isize::MAX,
        ensures
            r.wf(),
            r.raw_box()@ == zeroed_slots::<T>(len as nat),
            (r.raw_box().backing().held_block() is Some) <==> size_of::<T>() > 0,
    {
        UninitSliceBox { raw: RawBox::new_zeroed_slice(len), data: Global }
    }
}

/// Construction in a provided buffer.
impl<T, B: Buffer<T, ExternalData = D>, D> Box<T, B, D> {
    /// Places `value` in `buffer`, which has exactly one slot, and keeps `data` with it.
    pub fn new_in(value: T, buffer: B, data: D) -> (r: Self)
        requires
            buffer.wf(),
            buffer.slots().len() == 1,
        ensures
            r.value() == value,
            r.raw_box()@ == seq![Some(value)],
            r.raw_box().backing().held_block() == buffer.held_block(),
            r.external_data() == data,
    {
        let raw = RawBox::new_in(value, buffer, &data);
        assert(raw@ =~= seq![Some(value)]);
        Box { raw, data }
    }

    /// A box over `buffer`, which has exactly one slot, not written yet; keeps `data` with it.
    pub fn new_uninit_in(buffer: B, data: D) -> (r: UninitBox<T, B, D>)
        requires
            buffer.wf(),
            buffer.slots().len() == 1,
        ensures
            r.wf(),
            r.raw_box().backing() == buffer,
            r.external_data() == data,
    {
        UninitBox { raw: RawBox::new_uninit_in(buffer), data }
    }

    /// A boxed slice over `buffer`, whose slots have not been written yet, keeping `data` with
    /// it.
    pub fn new_uninit_slice_in(buffer: B, data: D) -> (r: UninitSliceBox<T, B, D>)
        requires
            buffer.wf(),
        ensures
            r.wf(),
            r.raw_box().backing() == buffer,
            r.external_data() == data,
    {
        UninitSliceBox { raw: RawBox::new_uninit_slice_in(buffer), data }
    }

    /// Puts a raw box that holds one value back together with its external data.
    pub fn from_raw(raw: RawBox<T, B>, data: D) -> (r: Self)
        requires
            raw.wf(),
            raw@.len() == 1,
            raw@[0] is Some,
        ensures
            r.raw_box() == raw,
            r.external_data() == data,
    {
        Box { raw, data }
    }

    /// Takes the box apart into its raw box and its external data, without dropping anything.
    pub fn into_raw(self) -> (r: (RawBox<T, B>, D))
        ensures
            r.0 == self.raw_box(),
            r.1 == self.external_data(),
            r.0.wf(),
            r.0@.len() == 1,
            r.0@[0] is Some,
    {
        proof {
            use_type_invariant(&self);
        }
        let Box { raw, data } = self;
        (raw, data)
    }

    /// The value in the box.
    pub fn as_ref(&self) -> (r: &T)
        ensures
            *r == self.value(),
    {
        proof {
            use_type_invariant(self);
        }
        self.raw.as_ref(&self.data)
    }

    /// Replaces the value in the box with `value`, dropping the old one; the buffer's memory and
    /// the external data stay as they are.
    pub fn set(self, value: T) -> (r: Self)
        ensures
            r.value() == value,
            r.raw_box()@ == seq![Some(value)],
            r.raw_box().backing().held_block() == self.raw_box().backing().held_block(),
            r.external_data() == self.external_data(),
    {
        proof {
            use_type_invariant(&self);
        }
        let Box { raw, data } = self;
        let mut raw = raw;
        raw.write(&data, 0, value);
        assert(raw@ =~= seq![Some(value)]);
        Box { raw, data }
    }

    /// Gives the buffer's memory back through the external data kept in the box; returns the
    /// block and layout handed to it.
    pub fn free(self) -> (r: Option<(Block, Layout)>) where B: UnmanagedBuffer<T>
        ensures
            r == self.raw_box().backing().release_request(),
    {
        proof {
            use_type_invariant(&self);
        }
        let Box { raw, data } = self;
        raw.free(&data)
    }
}

impl<T, B: Buffer<T, ExternalData = D>, D> UninitBox<T, B, D> {
    /// Writes `value` into the slot; the buffer's memory and the external data stay as they are.
    pub fn write(&mut self, value: T)
        requires
            old(self).wf(),
        ensures
            final(self).wf(),
            final(self).raw_box()@ == seq![Some(value)],
            final(self).raw_box().backing().held_block() == old(self).raw_box().backing().held_block(),
            final(self).external_data() == old(self).external_data(),
    {
        let data = &self.data;
        self.raw.write(data, 0, value);
        assert(self.raw@ =~= seq![Some(value)]);
    }

    /// Turns the box into one that holds its value, once the slot has been written. The buffer
    /// and the external data are moved over as they are.
    pub fn assume_init(self) -> (r: Box<T, B, D>)
        requires
            self.wf(),
            self.raw_box()@[0] is Some,
        ensures
            r.raw_box() == self.raw_box(),
            r.external_data() == self.external_data(),
            r.value() == self.raw_box()@[0]->Some_0,
    {
        let UninitBox { raw, data } = self;
        Box { raw: raw.assume_init(), data }
    }
}

impl<T, B: Buffer<T, ExternalData = D>, D> SliceBox<T, B, D> {
    /// Puts a raw box all of whose slots are written back together with its external data.
    pub fn from_raw(raw: RawBox<T, B>, data: D) -> (r: Self)
        requires
            raw.wf(),
            all_written(raw@),
        ensures
            r.raw_box() == raw,
            r.external_data() == data,
    {
        SliceBox { raw, data }
    }

    /// Takes the box apart into its raw box and its external data, without dropping anything.
    pub fn into_raw(self) -> (r: (RawBox<T, B>, D))
        ensures
            r.0 == self.raw_box(),
            r.1 == self.external_data(),
            r.0.wf(),
            all_written(r.0@),
    {
        proof {
            use_type_invariant(&self);
        }
        let SliceBox { raw, data } = self;
        (raw, data)
    }

    /// How many values the box holds.
    pub fn len(&self) -> (r: usize)
        ensures
            r == self.values().len(),
    {
        proof {
            use_type_invariant(self);
        }
        self.raw.len(&self.data)
    }

    /// The value at index `i`.
    pub fn get(&self, i: usize) -> (r: &T)
        requires
            i < self.values().len(),
        ensures
            *r == self.values()[i as int],
    {
        proof {
            use_type_invariant(self);
        }
        self.raw.get(&self.data, i)
    }

    /// Replaces the value at index `i` with `value`, dropping the old one; the buffer's memory
    /// and the external data stay as they are.
    pub fn set(self, i: usize, value: T) -> (r: Self)
        requires
            i < self.values().len(),
        ensures
            r.values() == self.values().update(i as int, value),
            r.raw_box().backing().held_block() == self.raw_box().backing().held_block(),
            r.external_data() == self.external_data(),
    {
        proof {
            use_type_invariant(&self);
        }
        let SliceBox { raw, data } = self;
        let mut raw = raw;
        raw.write(&data, i, value);
        proof {
            assert forall|j: int| 0 <= j < raw@.len() implies (#[trigger] raw@[j]) is Some by {
                if j != i {
                    assert(raw@[j] == self.raw_box()@[j]);
                }
            }
            assert(written_values(raw@) =~= written_values(self.raw_box()@).update(i as int, value));
        }
        SliceBox { raw, data }
    }

    /// Gives the buffer's memory back through the external data kept in the box; returns the
    /// block and layout handed to it.
    pub fn free(self) -> (r: Option<(Block, Layout)>) where B: UnmanagedBuffer<T>
        ensures
            r == self.raw_box().backing().release_request(),
    {
        proof {
            use_type_invariant(&self);
        }
        let SliceBox { raw, data } = self;
        raw.free(&data)
    }
}

impl<T, B: Buffer<T, ExternalData = D>, D> UninitSliceBox<T, B, D> {
    /// Writes `value` into slot `i`; the other slots, the buffer's memory and the external data
    /// stay as they are.
    pub fn write(&mut self, i: usize, value: T)
        requires
            old(self).wf(),
            i < old(self).raw_box()@.len(),
        ensures
            final(self).wf(),
            final(self).raw_box()@ == old(self).raw_box()@.update(i as int, Some(value)),
            final(self).raw_box().backing().held_block() == old(self).raw_box().backing().held_block(),
            final(self).external_data() == old(self).external_data(),
    {
        let data = &self.data;
        self.raw.write(data, i, value);
    }

    /// Turns the boxed slice into one that holds its values, once every slot has been written,
    /// whatever the number of slots. The buffer and the external data are moved over as they are.
    pub fn assume_init(self) -> (r: SliceBox<T, B, D>)
        requires
            self.wf(),
            all_written(self.raw_box()@),
        ensures
            r.raw_box() == self.raw_box(),
            r.external_data() == self.external_data(),
            r.values() == written_values(self.raw_box()@),
    {
        let UninitSliceBox { raw, data } = self;
        SliceBox { raw: raw.assume_init(), data }
    }
}

impl<T, B: Buffer<T, ExternalData = D>, D> core::ops::Deref for Box<T, B, D> {
    type Target = T;

    fn deref(&self) -> (r: &T)
        ensures
            *r == self.value(),
    {
        self.as_ref()
    }
}

} // verus!
