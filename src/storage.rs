//! A buffer that keeps its allocator with it.
use crate::allocator::{array_layout, layout_of, AllocError, Allocator, Block, Layout};
use crate::buffer::{uninit_slots, zeroed_slots, AllocatedBuffer, Buffer, UnmanagedBuffer, Zeroed};
use vstd::layout::size_of;
use vstd::prelude::*;

verus! {

/// An [`AllocatedBuffer`] together with the allocator that handed out its memory, so that it
/// needs no external data: every access and the final [`UnmanagedBuffer::free`] go through
/// the allocator that it keeps.
#[verifier::reject_recursive_types(A)]
pub struct AllocatorStorage<T, A: Allocator> {
    buffer: AllocatedBuffer<T, A>,
    allocator: A,
}

impl<T, A: Allocator> AllocatorStorage<T, A> {
    /// The buffer inside.
    pub closed spec fn inner(&self) -> AllocatedBuffer<T, A> {
        self.buffer
    }

    /// The allocator kept with the buffer.
    pub closed spec fn kept_allocator(&self) -> A {
        self.allocator
    }

    /// Storage for one value, in `allocator`; its slot is not written.
    pub fn new(allocator: A) -> (r: Result<Self, AllocError>)
        ensures
            r matches Ok(s) ==> s.wf() && s.slots() == uninit_slots::<T>(1)
                && ((s.held_block() is Some) <==> size_of::<T>() > 0) && s.kept_allocator() == allocator,
            size_of::<T>() == 0 ==> r is Ok,
            size_of::<T>() > 0 && allocator.grant(layout_of::<T>()) is Some ==> r is Ok,
    {
        let buffer = AllocatedBuffer::new_in(&allocator)?;
        Ok(AllocatorStorage { buffer, allocator })
    }

    /// Storage for one value, in `allocator`, holding the all-zero value.
    pub fn new_zeroed(allocator: A) -> (r: Result<Self, AllocError>) where T: Zeroed
        ensures
            r matches Ok(s) ==> s.wf() && s.slots() == zeroed_slots::<T>(1)
                && ((s.held_block() is Some) <==> size_of::<T>() > 0) && s.kept_allocator() == allocator,
            size_of::<T>() == 0 ==> r is Ok,
            size_of::<T>() > 0 && allocator.grant(layout_of::<T>()) is Some ==> r is Ok,
    {
        let buffer = AllocatedBuffer::new_zeroed_in(&allocator)?;
        Ok(AllocatorStorage { buffer, allocator })
    }

    /// Storage for at least `len` items, in `allocator`, as [`AllocatedBuffer::new_slice`]
    /// gives it.
    pub fn new_slice(allocator: A, len: usize) -> (r: Result<Self, AllocError>)
        ensures
            size_of::<T>() == 0 ==> (r matches Ok(s) && s.wf() && (s.held_block() is None)
                && s.slots() == uninit_slots::<T>(len as nat)),
            size_of::<T>() > 0 ==> {
                &&& size_of::<T>() * len > isize::MAX ==> r is Err
                &&& r matches Ok(s) ==> s.wf() && (s.held_block() is Some) && (s.inner().block() matches Some(block)
                    && s.slots() == uninit_slots::<T>(block.len as nat / size_of::<T>())
                    && len <= s.slots().len())
                &&& size_of::<T>() * len <= isize::MAX ==> (allocator.grant(array_layout::<T>(len as nat))
                    matches Some(bytes) ==> (r matches Ok(s) && s.inner().block() matches Some(block) && block.len == bytes))
            },
            r matches Ok(s) ==> s.kept_allocator() == allocator,
    {
        let buffer = AllocatedBuffer::new_slice(&allocator, len)?;
        Ok(AllocatorStorage { buffer, allocator })
    }

    /// As [`Self::new_slice`], with every slot holding the all-zero value.
    pub fn new_slice_zeroed(allocator: A, len: usize) -> (r: Result<Self, AllocError>) where T: Zeroed
        ensures
            size_of::<T>() == 0 ==> (r matches Ok(s) && s.wf() && (s.held_block() is None)
                && s.slots() == zeroed_slots::<T>(len as nat)),
            size_of::<T>() > 0 ==> {
                &&& size_of::<T>() * len > isize::MAX ==> r is Err
                &&& r matches Ok(s) ==> s.wf() && (s.held_block() is Some) && (s.inner().block() matches Some(block)
                    && s.slots() == zeroed_slots::<T>(block.len as nat / size_of::<T>())
                    && len <= s.slots().len())
                &&& size_of::<T>() * len <= isize::MAX ==> (allocator.grant(array_layout::<T>(len as nat))
                    matches Some(bytes) ==> (r matches Ok(s) && s.inner().block() matches Some(block) && block.len == bytes))
            },
            r matches Ok(s) ==> s.kept_allocator() == allocator,
    {
        let buffer = AllocatedBuffer::new_slice_zeroed(&allocator, len)?;
        Ok(AllocatorStorage { buffer, allocator })
    }
}

impl<T, A: Allocator> Buffer<T> for AllocatorStorage<T, A> {
    type ExternalData = ();

    open spec fn slots(&self) -> Seq<Option<T>> {
        self.inner().slots()
    }

    open spec fn wf(&self) -> bool {
        self.inner().wf()
    }

    open spec fn held_block(&self) -> Option<Block> {
        self.inner().held_block()
    }

    fn as_slice(&self, data: &()) -> (r: &[Option<T>]) {
        self.buffer.as_slice(&self.allocator)
    }

    fn slot_mut(&mut self, data: &(), i: usize) -> (r: &mut Option<T>) {
        self.buffer.slot_mut(&self.allocator, i)
    }
}

impl<T, A: Allocator> UnmanagedBuffer<T> for AllocatorStorage<T, A> {
    open spec fn release_request(&self) -> Option<(Block, Layout)> {
        self.inner().release_request()
    }

    fn free_unchecked(&mut self, data: &()) -> (r: Option<(Block, Layout)>) {
        self.buffer.free_unchecked(&self.allocator)
    }
}

} // verus!
