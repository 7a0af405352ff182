//! Layouts, the allocator interface, and the global allocator.
use vstd::layout::{align_of, size_of};
use vstd::prelude::*;

verus! {

/// The allocator could not hand out the memory that was asked for, or the size of the
/// request does not fit the address space.
#[derive(Clone, Copy, Debug, PartialEq, Eq, Structural)]
pub struct AllocError;

/// Size and alignment of a block of memory, in bytes.
#[derive(Clone, Copy, Debug, PartialEq, Eq, Structural)]
pub struct Layout {
    pub size: usize,
    pub align: usize,
}

/// The layout of one value of `T`.
pub open spec fn layout_of<T>() -> Layout {
    Layout { size: size_of::<T>() as usize, align: align_of::<T>() as usize }
}

/// The layout of `n` consecutive values of `T`.
pub open spec fn array_layout<T>(n: nat) -> Layout {
    Layout { size: (size_of::<T>() * n) as usize, align: align_of::<T>() as usize }
}

impl Layout {
    /// A layout that an allocator can be asked for: a non-zero alignment and a size that
    /// does not exceed `isize::MAX`.
    pub open spec fn wf(self) -> bool {
        self.align > 0 && self.size <= isize::MAX
    }

    /// The layout of one value of `T`.
    pub fn new<T>() -> (r: Layout)
        ensures
            r == layout_of::<T>(),
            r.size == size_of::<T>(),
            r.align == align_of::<T>(),
            r.wf(),
    {
        vstd::layout::layout_for_type_is_valid::<T>();
        Layout { size: core::mem::size_of::<T>(), align: core::mem::align_of::<T>() }
    }

    /// The layout of `n` consecutive values of `T`; fails where the byte count would
    /// exceed `isize::MAX`.
    pub fn array<T>(n: usize) -> (r: Result<Layout, AllocError>)
        ensures
            r is Ok <==> size_of::<T>() * n <= isize::MAX,
            r matches Ok(l) ==> {
                &&& l == array_layout::<T>(n as nat)
                &&& l.size == size_of::<T>() * n
                &&& l.align == align_of::<T>()
                &&& l.wf()
            },
    {
        vstd::layout::layout_for_type_is_valid::<T>();
        let item = core::mem::size_of::<T>();
        match item.checked_mul(n) {
            Some(size) => {
                if size <= isize::MAX as usize {
                    Ok(Layout { size, align: core::mem::align_of::<T>() })
                } else {
                    Err(AllocError)
                }
            },
            None => Err(AllocError),
        }
    }
}

/// Refuses, on targets narrower than 64 bits, an allocation of more than `isize::MAX` bytes.
pub fn alloc_guard(alloc_size: usize) -> (r: Result<(), AllocError>)
    ensures
        r is Err <==> (usize::BITS < 64 && alloc_size > isize::MAX),
{
    if usize::BITS < 64 && alloc_size > isize::MAX as usize {
        Err(AllocError)
    } else {
        Ok(())
    }
}

/// A block of memory handed out by an allocator: where it starts and how many bytes it spans.
///
/// A block is only a record of what the allocator granted. The values that a buffer holds live
/// in the buffer's own vector of slots, never at the block's address.
#[derive(Clone, Copy, Debug, PartialEq, Eq, Structural)]
pub struct Block {
    pub addr: usize,
    pub len: usize,
}

/// The operations that a pluggable allocator offers, keyed by a [`Layout`].
///
/// An allocator keeps account of memory: it grants or refuses requests and takes blocks back.
/// The blocks it hands out are records ([`Block`]); the buffers keep their values themselves.
/// A block may be larger than the layout asked for; it must be given back with a layout
/// whose alignment is the one asked for and whose size does not exceed the block.
pub trait Allocator {
    /// Where this allocator is sure to grant a request for `layout`, the size of the block it
    /// hands out.
    spec fn grant(&self, layout: Layout) -> Option<usize>;

    /// Hands out a block of at least `layout.size` bytes whose contents are unspecified.
    fn allocate(&self, layout: Layout) -> (r: Result<Block, AllocError>)
        requires
            layout.wf(),
        ensures
            r matches Ok(b) ==> layout.size <= b.len,
            self.grant(layout) matches Some(len) ==> (r matches Ok(b) && b.len == len),
    ;

    /// Hands out a block of at least `layout.size` bytes, all of them zero.
    fn allocate_zeroed(&self, layout: Layout) -> (r: Result<Block, AllocError>)
        requires
            layout.wf(),
        ensures
            r matches Ok(b) ==> layout.size <= b.len,
            self.grant(layout) matches Some(len) ==> (r matches Ok(b) && b.len == len),
    ;

    /// Takes back a block that this allocator, or an equivalent one, handed out.
    fn deallocate(&self, block: Block, layout: Layout)
        requires
            layout.align > 0,
            layout.size <= block.len,
    ;
}

/// The process-wide allocator.
///
/// The values of a buffer are kept by the buffer itself, so the global allocator has nothing to
/// reserve: it grants every well-formed request with a block of exactly the size asked for,
/// placed at the alignment, and taking a block back needs no work.
#[derive(Clone, Copy, Debug, PartialEq, Eq, Structural)]
pub struct Global;

impl Allocator for Global {
    open spec fn grant(&self, layout: Layout) -> Option<usize> {
        Some(layout.size)
    }

    fn allocate(&self, layout: Layout) -> (r: Result<Block, AllocError>) {
        Ok(Block { addr: layout.align, len: layout.size })
    }

    fn allocate_zeroed(&self, layout: Layout) -> (r: Result<Block, AllocError>) {
        Ok(Block { addr: layout.align, len: layout.size })
    }

    fn deallocate(&self, block: Block, layout: Layout) {
    }
}

} // verus!
