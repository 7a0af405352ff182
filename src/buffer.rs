//! Backends that hold the items of a box: memory from an allocator, or an inline array.
use crate::allocator::{alloc_guard, array_layout, layout_of, AllocError, Allocator, Block, Global, Layout};
use core::marker::PhantomData;
use vstd::layout::{align_of, size_of};
use vstd::prelude::*;

verus! {

/// `n` slots into which nothing has been written.
pub open spec fn uninit_slots<T>(n: nat) -> Seq<Option<T>> {
    Seq::new(n, |i: int| None)
}

/// `n` slots filled with the all-zero value of `T`.
pub open spec fn zeroed_slots<T: Zeroed>(n: nat) -> Seq<Option<T>> {
    Seq::new(n, |i: int| Some(T::zero()))
}

/// Whether every one of `slots` has been written.
pub open spec fn all_written<T>(slots: Seq<Option<T>>) -> bool {
    forall|i: int| 0 <= i < slots.len() ==> (#[trigger] slots[i]) is Some
}

/// The values held by `slots`, all of which have been written.
pub open spec fn written_values<T>(slots: Seq<Option<T>>) -> Seq<T> {
    slots.map_values(|s: Option<T>| s->Some_0)
}

/// `slots` after `values[0]`, ..., `values[k - 1]` have been written, one after another, into
/// slots `0`, ..., `k - 1`.
pub open spec fn write_in_order<T>(slots: Seq<Option<T>>, values: Seq<T>, k: nat) -> Seq<Option<T>>
    decreases k,
{
    if k == 0 {
        slots
    } else {
        write_in_order(slots, values, (k - 1) as nat).update(k - 1, Some(values[k - 1]))
    }
}

/// Writing `n` values, in order, into `n` slots that have not been written leaves every slot
/// written, and the slots then hold exactly those values, in the order they were written.
pub proof fn lemma_written_in_order<T>(values: Seq<T>)
    ensures
        all_written(write_in_order(uninit_slots::<T>(values.len()), values, values.len())),
        written_values(write_in_order(uninit_slots::<T>(values.len()), values, values.len()))
            == values,
{
    let n = values.len();
    lemma_write_in_order_prefix(uninit_slots::<T>(n), values, n);
    let w = write_in_order(uninit_slots::<T>(n), values, n);
    assert(written_values(w) =~= values);
}

/// After the first `k` writes, slot `i < k` holds `values[i]` and the others are as they were.
proof fn lemma_write_in_order_prefix<T>(slots: Seq<Option<T>>, values: Seq<T>, k: nat)
    requires
        k <= slots.len(),
        k <= values.len(),
    ensures
        write_in_order(slots, values, k).len() == slots.len(),
        forall|i: int| 0 <= i < k ==> #[trigger] write_in_order(slots, values, k)[i] == Some(values[i]),
        forall|i: int| k <= i < slots.len() ==> #[trigger] write_in_order(slots, values, k)[i] == slots[i],
    decreases k,
{
    if k > 0 {
        lemma_write_in_order_prefix(slots, values, (k - 1) as nat);
    }
}

/// Types whose all-zero bit pattern is a valid value.
pub trait Zeroed: Sized {
    /// The value whose bytes are all zero.
    spec fn zero() -> Self;

    fn zeroed() -> (r: Self)
        ensures
            r == Self::zero(),
    ;
}

impl Zeroed for u8 {
    open spec fn zero() -> u8 {
        0
    }

    fn zeroed() -> u8 {
        0
    }
}

impl Zeroed for u16 {
    open spec fn zero() -> u16 {
        0
    }

    fn zeroed() -> u16 {
        0
    }
}

impl Zeroed for u32 {
    open spec fn zero() -> u32 {
        0
    }

    fn zeroed() -> u32 {
        0
    }
}

impl Zeroed for u64 {
    open spec fn zero() -> u64 {
        0
    }

    fn zeroed() -> u64 {
        0
    }
}

impl Zeroed for usize {
    open spec fn zero() -> usize {
        0
    }

    fn zeroed() -> usize {
        0
    }
}

impl Zeroed for i8 {
    open spec fn zero() -> i8 {
        0
    }

    fn zeroed() -> i8 {
        0
    }
}

impl Zeroed for i16 {
    open spec fn zero() -> i16 {
        0
    }

    fn zeroed() -> i16 {
        0
    }
}

impl Zeroed for i32 {
    open spec fn zero() -> i32 {
        0
    }

    fn zeroed() -> i32 {
        0
    }
}

impl Zeroed for i64 {
    open spec fn zero() -> i64 {
        0
    }

    fn zeroed() -> i64 {
        0
    }
}

impl Zeroed for isize {
    open spec fn zero() -> isize {
        0
    }

    fn zeroed() -> isize {
        0
    }
}

impl Zeroed for bool {
    open spec fn zero() -> bool {
        false
    }

    fn zeroed() -> bool {
        false
    }
}

impl Zeroed for () {
    open spec fn zero() -> () {
        ()
    }

    fn zeroed() -> () {
        ()
    }
}

/// Builds `n` slots into which nothing has been written.
fn new_uninit_slots<T>(n: usize) -> (r: Vec<Option<T>>)
    ensures
        r@ == uninit_slots::<T>(n as nat),
{
    let mut v: Vec<Option<T>> = Vec::new();
    let mut i: usize = 0;
    while i < n
        invariant
            i <= n,
            v@ == uninit_slots::<T>(i as nat),
        decreases n - i,
    {
        v.push(None);
        i = i + 1;
        assert(v@ =~= uninit_slots::<T>(i as nat));
    }
    v
}

/// Builds `n` slots, each holding the all-zero value of `T`.
fn new_zeroed_slots<T: Zeroed>(n: usize) -> (r: Vec<Option<T>>)
    ensures
        r@ == zeroed_slots::<T>(n as nat),
{
    let mut v: Vec<Option<T>> = Vec::new();
    let mut i: usize = 0;
    while i < n
        invariant
            i <= n,
            v@ == zeroed_slots::<T>(i as nat),
        decreases n - i,
    {
        v.push(Some(T::zeroed()));
        i = i + 1;
        assert(v@ =~= zeroed_slots::<T>(i as nat));
    }
    v
}

/// Backend for box types: a run of slots, each either written with a value or not.
///
/// A buffer may need an external datum, passed at every access, so that the buffer does not
/// have to store it.
pub trait Buffer<T> {
    /// Data required to be passed at every interaction with the buffer.
    type ExternalData;

    /// The slots of the buffer, `None` where nothing has been written.
    spec fn slots(&self) -> Seq<Option<T>>;

    /// The buffer's own well-formedness.
    spec fn wf(&self) -> bool;

    /// The block taken from an allocator that the buffer holds, if any.
    spec fn held_block(&self) -> Option<Block>;

    /// The slots, for reading.
    fn as_slice(&self, data: &Self::ExternalData) -> (r: &[Option<T>])
        requires
            self.wf(),
        ensures
            r@ == self.slots(),
    ;

    /// One slot, for writing; the other slots and the buffer's memory stay as they are.
    fn slot_mut(&mut self, data: &Self::ExternalData, i: usize) -> (r: &mut Option<T>)
        requires
            old(self).wf(),
            i < old(self).slots().len(),
        ensures
            *r == old(self).slots()[i as int],
            final(self).slots() == old(self).slots().update(i as int, *final(r)),
            final(self).wf(),
            final(self).held_block() == old(self).held_block(),
    ;
}

/// A buffer whose memory comes from an allocator and has to be given back to it.
pub trait UnmanagedBuffer<T>: Buffer<T> {
    /// What freeing hands to the allocator's `deallocate`: the block held, with the layout it is
    /// given back under. `None` where the buffer holds no block, and then freeing makes no call.
    spec fn release_request(&self) -> Option<(Block, Layout)>;

    /// Gives the buffer's memory back to `allocator`, which must be the allocator that handed
    /// it out or an equivalent one, by passing it the [`Self::release_request`]; returns that
    /// request. The buffer keeps no block and no slots afterwards.
    fn free_unchecked(&mut self, allocator: &Self::ExternalData) -> (r: Option<(Block, Layout)>)
        requires
            old(self).wf(),
        ensures
            r == old(self).release_request(),
            final(self).wf(),
            final(self).held_block() is None,
            final(self).slots().len() == 0,
    ;

    /// Gives the buffer's memory back to `allocator` and consumes the buffer; returns what was
    /// handed to the allocator.
    fn free(self, allocator: &Self::ExternalData) -> (r: Option<(Block, Layout)>) where Self: Sized
        requires
            self.wf(),
        ensures
            r == self.release_request(),
    {
        let mut this = self;
        this.free_unchecked(allocator)
    }
}

/// What a buffer for one value keeps of the allocator's answer: the block handed out, or the
/// allocator's error.
pub fn block_for_value(outcome: Result<Block, AllocError>) -> (r: Result<Option<Block>, AllocError>)
    ensures
        r == match outcome {
            Ok(b) => Ok::<Option<Block>, AllocError>(Some(b)),
            Err(e) => Err(e),
        },
{
    match outcome {
        Ok(b) => Ok(Some(b)),
        Err(e) => Err(e),
    }
}

/// How many items of `T` fit in `bytes` bytes.
fn capacity_from_bytes<T>(bytes: usize) -> (r: usize)
    requires
        size_of::<T>() != 0,
    ensures
        r == bytes as nat / size_of::<T>(),
{
    bytes / core::mem::size_of::<T>()
}

/// What a buffer for items of a sized `T` keeps of the allocator's answer: the block handed
/// out and how many items fit in it, or the allocator's error.
pub fn block_for_slice<T>(outcome: Result<Block, AllocError>) -> (r: Result<(Option<Block>, usize), AllocError>)
    requires
        size_of::<T>() > 0,
    ensures
        r == match outcome {
            Ok(b) => Ok::<(Option<Block>, usize), AllocError>((Some(b), (b.len as nat / size_of::<T>()) as usize)),
            Err(e) => Err(e),
        },
{
    match outcome {
        Ok(b) => {
            let cap = capacity_from_bytes::<T>(b.len);
            Ok((Some(b), cap))
        },
        Err(e) => Err(e),
    }
}

/// A buffer of items of `T` in a block handed out by an allocator of type `A`.
///
/// Items of a zero-sized type take no memory: such a buffer never asks the allocator for a
/// block and has nothing to give back.
pub struct AllocatedBuffer<T, A = Global> {
    block: Option<Block>,
    slots: Vec<Option<T>>,
    marker: PhantomData<A>,
}

impl<T, A> AllocatedBuffer<T, A> {
    /// The block taken from the allocator, if any.
    pub closed spec fn block(&self) -> Option<Block> {
        self.block
    }

    /// The slots, `None` where nothing has been written.
    pub closed spec fn slot_view(&self) -> Seq<Option<T>> {
        self.slots@
    }

    /// The slots fit in the block; items of a zero-sized type take none.
    pub closed spec fn buffer_wf(&self) -> bool {
        match self.block {
            Some(b) => {
                &&& size_of::<T>() > 0
                &&& self.slots@.len() * size_of::<T>() <= b.len
            },
            None => size_of::<T>() == 0 || self.slots@.len() == 0,
        }
    }
}

impl<T> AllocatedBuffer<T, Global> {
    /// A buffer for one value, in the global allocator.
    pub fn new() -> (r: Result<Self, AllocError>)
        ensures
            r matches Ok(b) && b.wf() && b.slots() == uninit_slots::<T>(1)
                && (b.block() is None <==> size_of::<T>() == 0),
    {
        Self::new_in(&Global)
    }

    /// A buffer for one value, in the global allocator, filled with zero.
    pub fn new_zeroed() -> (r: Result<Self, AllocError>) where T: Zeroed
        ensures
            r matches Ok(b) && b.wf() && b.slots() == zeroed_slots::<T>(1)
                && (b.block() is None <==> size_of::<T>() == 0),
    {
        Self::new_zeroed_in(&Global)
    }
}

impl<T, A: Allocator> AllocatedBuffer<T, A> {
    /// Asks `allocator` for the memory of one value, unless `T` is zero-sized.
    fn allocate_in(allocator: &A, zeroed: bool) -> (r: Result<Option<Block>, AllocError>)
        ensures
            size_of::<T>() == 0 ==> r == Ok::<Option<Block>, AllocError>(None),
            size_of::<T>() > 0 ==> {
                &&& r matches Ok(b) ==> (b matches Some(block) && size_of::<T>() <= block.len)
                &&& allocator.grant(layout_of::<T>()) matches Some(bytes) ==> (r matches Ok(b)
                    && b matches Some(block) && block.len == bytes)
            },
    {
        let layout = Layout::new::<T>();
        if layout.size == 0 {
            return Ok(None);
        }
        let block = if zeroed {
            allocator.allocate_zeroed(layout)
        } else {
            allocator.allocate(layout)
        };
        block_for_value(block)
    }

    /// A buffer for one value, in `allocator`; its slot is not written.
    pub fn new_in(allocator: &A) -> (r: Result<Self, AllocError>)
        ensures
            r matches Ok(b) ==> b.wf() && b.slots() == uninit_slots::<T>(1)
                && (b.block() is None <==> size_of::<T>() == 0),
            size_of::<T>() == 0 ==> r is Ok,
            size_of::<T>() > 0 && allocator.grant(layout_of::<T>()) is Some ==> r is Ok,
    {
        let block = Self::allocate_in(allocator, false)?;
        let r = AllocatedBuffer { block, slots: new_uninit_slots(1), marker: PhantomData };
        assert(r.slot_view().len() == 1);
        assert(r.slot_view().len() * size_of::<T>() == size_of::<T>()) by (nonlinear_arith)
            requires
                r.slot_view().len() == 1,
        ;
        Ok(r)
    }

    /// A buffer for one value, in `allocator`, holding the all-zero value.
    pub fn new_zeroed_in(allocator: &A) -> (r: Result<Self, AllocError>) where T: Zeroed
        ensures
            r matches Ok(b) ==> b.wf() && b.slots() == zeroed_slots::<T>(1)
                && (b.block() is None <==> size_of::<T>() == 0),
            size_of::<T>() == 0 ==> r is Ok,
            size_of::<T>() > 0 && allocator.grant(layout_of::<T>()) is Some ==> r is Ok,
    {
        let block = Self::allocate_in(allocator, true)?;
        let r = AllocatedBuffer { block, slots: new_zeroed_slots(1), marker: PhantomData };
        assert(r.slot_view().len() == 1);
        assert(r.slot_view().len() * size_of::<T>() == size_of::<T>()) by (nonlinear_arith)
            requires
                r.slot_view().len() == 1,
        ;
        Ok(r)
    }
}

impl<T, A: Allocator> AllocatedBuffer<T, A> {
    /// Asks `allocator` for the memory of `len` items, unless `T` is zero-sized; gives the
    /// block and how many items fit in it.
    fn allocate_slice(allocator: &A, len: usize, zeroed: bool) -> (r: Result<(Option<Block>, usize), AllocError>)
        ensures
            size_of::<T>() == 0 ==> r == Ok::<(Option<Block>, usize), AllocError>((None, len)),
            size_of::<T>() > 0 ==> {
                &&& size_of::<T>() * len > isize::MAX ==> r is Err
                &&& r matches Ok((b, cap)) ==> (b matches Some(block) && cap == block.len as nat / size_of::<T>()
                    && len <= cap && cap * size_of::<T>() <= block.len)
                &&& size_of::<T>() * len <= isize::MAX ==> (allocator.grant(array_layout::<T>(len as nat))
                    matches Some(bytes) ==> (r matches Ok((b, cap)) && b == Some(Block { addr: b->Some_0.addr, len: bytes })))
            },
    {
        vstd::layout::layout_for_type_is_valid::<T>();
        let item = core::mem::size_of::<T>();
        if item == 0 {
            return Ok((None, len));
        }
        let layout = match Layout::array::<T>(len) {
            Ok(l) => l,
            Err(_) => return Err(AllocError),
        };
        if alloc_guard(layout.size).is_err() {
            return Err(AllocError);
        }
        let block = if zeroed {
            allocator.allocate_zeroed(layout)
        } else {
            allocator.allocate(layout)
        };
        let kept = block_for_slice::<T>(block);
        proof {
            if kept is Ok {
                let b = block->Ok_0;
                let cap = kept->Ok_0.1;
                assert(len <= cap) by (nonlinear_arith)
                    requires
                        item * len <= b.len,
                        item > 0,
                        cap == b.len as nat / item as nat,
                ;
                assert(cap * item <= b.len) by (nonlinear_arith)
                    requires
                        item > 0,
                        cap == b.len as nat / item as nat,
                ;
            }
        }
        kept
    }

    /// A buffer for at least `len` items, in `allocator`; no slot is written. It has as many
    /// slots as fit in the block that the allocator handed out. Items of a zero-sized type
    /// take no memory: such a buffer asks the allocator for nothing and has `len` slots.
    pub fn new_slice(allocator: &A, len: usize) -> (r: Result<Self, AllocError>)
        ensures
            size_of::<T>() == 0 ==> (r matches Ok(b) && b.wf() && b.block() is None
                && b.slots() == uninit_slots::<T>(len as nat)),
            size_of::<T>() > 0 ==> {
                &&& size_of::<T>() * len > isize::MAX ==> r is Err
                &&& r matches Ok(b) ==> b.wf() && (b.block() matches Some(block)
                    && b.slots() == uninit_slots::<T>(block.len as nat / size_of::<T>())
                    && len <= b.slots().len())
                &&& size_of::<T>() * len <= isize::MAX ==> (allocator.grant(array_layout::<T>(len as nat))
                    matches Some(bytes) ==> (r matches Ok(b) && b.block() matches Some(block) && block.len == bytes))
            },
    {
        let (block, cap) = Self::allocate_slice(allocator, len, false)?;
        Ok(AllocatedBuffer { block, slots: new_uninit_slots(cap), marker: PhantomData })
    }

    /// As [`Self::new_slice`], with every slot holding the all-zero value.
    pub fn new_slice_zeroed(allocator: &A, len: usize) -> (r: Result<Self, AllocError>) where T: Zeroed
        ensures
            size_of::<T>() == 0 ==> (r matches Ok(b) && b.wf() && b.block() is None
                && b.slots() == zeroed_slots::<T>(len as nat)),
            size_of::<T>() > 0 ==> {
                &&& size_of::<T>() * len > isize::MAX ==> r is Err
                &&& r matches Ok(b) ==> b.wf() && (b.block() matches Some(block)
                    && b.slots() == zeroed_slots::<T>(block.len as nat / size_of::<T>())
                    && len <= b.slots().len())
                &&& size_of::<T>() * len <= isize::MAX ==> (allocator.grant(array_layout::<T>(len as nat))
                    matches Some(bytes) ==> (r matches Ok(b) && b.block() matches Some(block) && block.len == bytes))
            },
    {
        let (block, cap) = Self::allocate_slice(allocator, len, true)?;
        Ok(AllocatedBuffer { block, slots: new_zeroed_slots(cap), marker: PhantomData })
    }
}

impl<T, A: Allocator> Buffer<T> for AllocatedBuffer<T, A> {
    type ExternalData = A;

    open spec fn slots(&self) -> Seq<Option<T>> {
        self.slot_view()
    }

    open spec fn wf(&self) -> bool {
        self.buffer_wf()
    }

    open spec fn held_block(&self) -> Option<Block> {
        self.block()
    }

    fn as_slice(&self, data: &A) -> (r: &[Option<T>]) {
        self.slots.as_slice()
    }

    fn slot_mut(&mut self, data: &A, i: usize) -> (r: &mut Option<T>) {
        &mut self.slots[i]
    }
}

impl<T, A: Allocator> AllocatedBuffer<T, A> {
    /// The block held and the layout it is given back under: `size_of::<T>()` times the number
    /// of slots, aligned as `T` is. `None` where no block is held.
    pub open spec fn release_layout(&self) -> Option<(Block, Layout)> {
        match self.block() {
            Some(b) => Some(
                (
                    b,
                    Layout {
                        size: (self.slot_view().len() * size_of::<T>()) as usize,
                        align: align_of::<T>() as usize,
                    },
                ),
            ),
            None => None,
        }
    }

    /// What freeing the buffer hands to the allocator, see [`Self::release_layout`].
    pub fn to_release(&self) -> (r: Option<(Block, Layout)>)
        requires
            self.wf(),
        ensures
            r == self.release_layout(),
            r matches Some((b, l)) ==> l.align > 0 && l.size <= b.len,
    {
        match self.block {
            Some(b) => {
                vstd::layout::layout_for_type_is_valid::<T>();
                let item = core::mem::size_of::<T>();
                let n = self.slots.len();
                assert(item * n <= b.len) by (nonlinear_arith)
                    requires
                        n * item <= b.len,
                ;
                Some((b, Layout { size: item * n, align: core::mem::align_of::<T>() }))
            },
            None => None,
        }
    }
}

impl<T, A: Allocator> UnmanagedBuffer<T> for AllocatedBuffer<T, A> {
    open spec fn release_request(&self) -> Option<(Block, Layout)> {
        self.release_layout()
    }

    fn free_unchecked(&mut self, allocator: &A) -> (r: Option<(Block, Layout)>) {
        let request = self.to_release();
        if let Some((b, l)) = request {
            allocator.deallocate(b, l);
        }
        self.block = None;
        self.slots = Vec::new();
        assert(self.held_block() is None);
        request
    }
}

/// A buffer of `N` slots held inline, in the buffer value itself. It needs no external data and
/// is never freed: its memory lives exactly as long as the value.
pub struct ArrayBuffer<T, const N: usize> {
    slots: Vec<Option<T>>,
}

impl<T, const N: usize> ArrayBuffer<T, N> {
    /// The slots, `None` where nothing has been written.
    pub closed spec fn slot_view(&self) -> Seq<Option<T>> {
        self.slots@
    }

    /// An array of `N` slots, none of them written.
    pub fn uninit() -> (r: Self)
        ensures
            r.wf(),
            r.slots() == uninit_slots::<T>(N as nat),
    {
        ArrayBuffer { slots: new_uninit_slots(N) }
    }
}

impl<T, const N: usize> Buffer<T> for ArrayBuffer<T, N> {
    type ExternalData = ();

    open spec fn slots(&self) -> Seq<Option<T>> {
        self.slot_view()
    }

    open spec fn wf(&self) -> bool {
        self.slot_view().len() == N
    }

    open spec fn held_block(&self) -> Option<Block> {
        None
    }

    fn as_slice(&self, data: &()) -> (r: &[Option<T>]) {
        self.slots.as_slice()
    }

    fn slot_mut(&mut self, data: &(), i: usize) -> (r: &mut Option<T>) {
        &mut self.slots[i]
    }
}

} // verus!
