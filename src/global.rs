use crate::bytes::{all_zero, copy_prefix, write_zeros};
use crate::layout::Layout;
use vstd::layout::valid_layout;
use vstd::prelude::*;

verus! {

/// A block of a `GlobalCoAlloc`, with the metadata that came with it.
///
/// A `None` in `ptr` is the null address: the allocation failed.
pub struct PtrAndMeta<M> {
    /// The bytes of the block, owned by the holder of this value; `None` where
    /// no block was allocated.
    pub ptr: Option<Vec<u8>>,
    /// Data of the allocator's own choosing that travels with the block.
    pub meta: M,
}

impl<M> PtrAndMeta<M> {
    /// The bytes of the block; none at the null address.
    pub open spec fn region(&self) -> Seq<u8> {
        match self.ptr {
            Some(b) => b@,
            None => Seq::empty(),
        }
    }

    /// Whether this is the null address.
    pub fn is_null(&self) -> (r: bool)
        ensures
            r == self.ptr is None,
    {
        self.ptr.is_none()
    }
}

/// What `co_realloc` returns: the pair that the new allocation gave, and, where
/// its address is null, the old pair, untouched and still the caller's.
pub struct Reallocated<M> {
    pub new: PtrAndMeta<M>,
    pub kept: Option<PtrAndMeta<M>>,
}

/// `allocated`, with its first `size` bytes set to zero where its address is
/// not null.
pub fn zero_fill_block<M>(allocated: PtrAndMeta<M>, size: usize) -> (r: PtrAndMeta<M>)
    requires
        allocated.ptr matches Some(b) ==> size <= b@.len(),
    ensures
        r.meta == allocated.meta,
        r.ptr is None <==> allocated.ptr is None,
        r.region().len() == allocated.region().len(),
        forall|i: int| 0 <= i < size && i < r.region().len() ==> r.region()[i] == 0,
        forall|i: int|
            size <= i < allocated.region().len() ==> r.region()[i] == allocated.region()[i],
{
    let PtrAndMeta { ptr, meta } = allocated;
    match ptr {
        None => PtrAndMeta { ptr: None, meta },
        Some(mut b) => {
            write_zeros(&mut b, size);
            PtrAndMeta { ptr: Some(b), meta }
        },
    }
}

/// `new` is the block of `new_size` bytes that a reallocation of `old` gives:
/// the bytes that both have room for are those of `old`.
pub open spec fn reallocated_from(old: Seq<u8>, new: Seq<u8>, new_size: int) -> bool {
    let kept = if old.len() < new_size {
        old.len() as int
    } else {
        new_size
    };
    &&& new.len() == new_size
    &&& new.subrange(0, kept) == old.subrange(0, kept)
}

/// Reallocating a block to a larger size and then back to its own size gives
/// back exactly the bytes it held.
pub proof fn lemma_realloc_round_trip(
    original: Seq<u8>,
    grown: Seq<u8>,
    restored: Seq<u8>,
    larger: int,
)
    requires
        original.len() <= larger,
        reallocated_from(original, grown, larger),
        reallocated_from(grown, restored, original.len() as int),
    ensures
        restored == original,
{
    assert(restored =~= original) by {
        assert(restored.subrange(0, original.len() as int) =~= restored);
        assert(original.subrange(0, original.len() as int) =~= original);
    }
}

/// A process-wide allocator that signals failure by the null address, and
/// returns and takes back metadata of type `M` with every block.
///
/// An implementer supplies `co_alloc` and `co_dealloc`; the other operations
/// are derived from those two, and may be overridden as long as their
/// contracts still hold. The metadata and layout handed back with a block must
/// be those last returned for it.
pub trait GlobalCoAlloc<M>: Sized {
    /// A fresh block of `layout.size()` bytes with metadata, or the null
    /// address when the request cannot be met.
    fn co_alloc(&self, layout: Layout) -> (r: PtrAndMeta<M>)
        requires
            layout.size() > 0,
        ensures
            r.ptr matches Some(b) ==> b@.len() == layout.size(),
    ;

    /// Releases a block that this allocator returned for `layout`, with the
    /// metadata last returned for it.
    fn co_dealloc(&self, ptr_and_meta: PtrAndMeta<M>, layout: Layout)
        requires
            ptr_and_meta.ptr is Some,
            ptr_and_meta.region().len() == layout.size(),
    ;

    /// Like `co_alloc`; where the address is not null, every byte of the block
    /// is set to zero.
    fn co_alloc_zeroed(&self, layout: Layout) -> (r: PtrAndMeta<M>)
        requires
            layout.size() > 0,
        ensures
            r.ptr matches Some(b) ==> b@.len() == layout.size() && all_zero(b@),
    {
        let size = layout.size();
        zero_fill_block(self.co_alloc(layout), size)
    }

    /// Moves a block of `layout` to a new one of `new_size` bytes with the same
    /// alignment: the first `min(layout.size(), new_size)` bytes are copied
    /// over and the old block is deallocated. Where the new address is null,
    /// the old block is not deallocated and is handed back untouched.
    fn co_realloc(&self, ptr_and_meta: PtrAndMeta<M>, layout: Layout, new_size: usize) -> (r:
        Reallocated<M>)
        requires
            ptr_and_meta.ptr is Some,
            ptr_and_meta.region().len() == layout.size(),
            new_size > 0,
            valid_layout(new_size, layout.align()),
        ensures
            r.new.ptr is None ==> r.kept == Some(ptr_and_meta),
            r.new.ptr is Some ==> r.kept is None && reallocated_from(
                ptr_and_meta.region(),
                r.new.region(),
                new_size as int,
            ),
    {
        let new_layout = Layout::from_size_align_unchecked(new_size, layout.align());
        let PtrAndMeta { ptr, meta } = self.co_alloc(new_layout);
        match ptr {
            None => Reallocated { new: PtrAndMeta { ptr: None, meta }, kept: Some(ptr_and_meta) },
            Some(mut b) => {
                let count = if layout.size() < new_size {
                    layout.size()
                } else {
                    new_size
                };
                match &ptr_and_meta.ptr {
                    Some(old) => copy_prefix(&mut b, old, count),
                    None => {},
                }
                proof {
                    assert(b@.subrange(0, count as int) =~= ptr_and_meta.region().subrange(
                        0,
                        count as int,
                    ));
                }
                self.co_dealloc(ptr_and_meta, layout);
                Reallocated { new: PtrAndMeta { ptr: Some(b), meta }, kept: None }
            },
        }
    }
}

} // verus!
