use crate::bytes::{all_zero, copy_prefix, resized_from, write_zeros};
use crate::layout::Layout;
use vstd::prelude::*;

verus! {

/// The one way in which an allocation of the fallible allocator fails: the
/// request could not be met (no memory left, or a size or alignment that the
/// allocator cannot serve).
#[derive(Clone, Copy, Debug, PartialEq, Eq)]
pub struct AllocError;

/// A block handed to a `CoAllocator`, with the metadata that came with it.
pub struct PtrAndMeta<M> {
    /// The bytes of the block, owned by the holder of this value.
    pub ptr: Vec<u8>,
    /// What the allocator returned with the block, to be handed back unchanged.
    pub meta: M,
}

/// A block returned by a `CoAllocator`, with its metadata.
pub struct SliceAndMeta<M> {
    /// The bytes of the block: at least as many as the layout asked for.
    pub slice: Vec<u8>,
    /// Data of the allocator's own choosing that travels with the block.
    pub meta: M,
}

/// What an allocation of a `CoAllocator` returns.
pub type SliceAndMetaResult<M> = Result<SliceAndMeta<M>, AllocError>;

/// A grow or shrink that could not allocate: the error, and the old block with
/// its metadata, untouched and still the caller's.
pub struct ResizeFailure<M> {
    pub error: AllocError,
    pub ptr_and_meta: PtrAndMeta<M>,
}

/// What a grow or shrink of a `CoAllocator` returns.
pub type ResizeResult<M> = Result<SliceAndMeta<M>, ResizeFailure<M>>;

impl<M> SliceAndMeta<M> {
    /// The block and its metadata, in the form that deallocation, grow and
    /// shrink take.
    pub fn into_ptr_and_meta(self) -> (r: PtrAndMeta<M>)
        ensures
            r.ptr == self.slice,
            r.meta == self.meta,
    {
        PtrAndMeta { ptr: self.slice, meta: self.meta }
    }
}

/// `allocated`, with every byte of its block set to zero.
pub fn zero_fill_result<M>(allocated: SliceAndMetaResult<M>) -> (r: SliceAndMetaResult<M>)
    ensures
        allocated is Err <==> r is Err,
        allocated matches Ok(s) ==> (r matches Ok(z) && z.meta == s.meta && z.slice@.len()
            == s.slice@.len() && all_zero(z.slice@)),
{
    match allocated {
        Err(e) => Err(e),
        Ok(s) => {
            let SliceAndMeta { mut slice, meta } = s;
            let len = slice.len();
            write_zeros(&mut slice, len);
            Ok(SliceAndMeta { slice, meta })
        },
    }
}

/// `new`, with its first `count` bytes replaced by the first `count` bytes of
/// `old`: the step of a grow or shrink that carries the contents over.
pub fn carry_prefix<M>(old: &Vec<u8>, new: SliceAndMeta<M>, count: usize) -> (r: SliceAndMeta<M>)
    requires
        count <= old@.len(),
        count <= new.slice@.len(),
    ensures
        r.meta == new.meta,
        r.slice@ == old@.subrange(0, count as int) + new.slice@.subrange(
            count as int,
            new.slice@.len() as int,
        ),
{
    let SliceAndMeta { mut slice, meta } = new;
    let ghost fresh = slice@;
    copy_prefix(&mut slice, old, count);
    proof {
        assert(slice@ =~= old@.subrange(0, count as int) + fresh.subrange(
            count as int,
            fresh.len() as int,
        ));
    }
    SliceAndMeta { slice, meta }
}

/// Growing a block and then shrinking the result back to the first size
/// gives a block whose bytes within that size are those of the first block.
pub proof fn lemma_grow_then_shrink_round_trip(
    original: Seq<u8>,
    grown: Seq<u8>,
    shrunk: Seq<u8>,
    size: int,
    larger: int,
)
    requires
        size <= larger,
        resized_from(original, grown, size, larger),
        resized_from(grown, shrunk, size, size),
    ensures
        shrunk.subrange(0, size) == original.subrange(0, size),
{
}

/// A fallible allocator that returns, and takes back, metadata of type `M`
/// with every block.
///
/// An implementer supplies `co_allocate` and `co_deallocate`; the other
/// operations are derived from those two, and may be overridden as long as
/// their contracts still hold. The metadata and layout handed back with a block
/// must be those last returned for it.
pub trait CoAllocator<M>: Sized {
    /// A fresh block of at least `layout.size()` bytes, with metadata; or
    /// `AllocError` when the request cannot be met.
    fn co_allocate(&self, layout: Layout) -> (r: SliceAndMetaResult<M>)
        ensures
            r matches Ok(s) ==> s.slice@.len() >= layout.size(),
    ;

    /// Releases a block that this allocator returned for `layout`, with the
    /// metadata last returned for it.
    fn co_deallocate(&self, ptr_and_meta: PtrAndMeta<M>, layout: Layout)
        requires
            ptr_and_meta.ptr@.len() >= layout.size(),
    ;

    /// Like `co_allocate`, with every byte of the returned block set to zero.
    fn co_allocate_zeroed(&self, layout: Layout) -> (r: SliceAndMetaResult<M>)
        ensures
            r matches Ok(s) ==> s.slice@.len() >= layout.size() && all_zero(s.slice@),
    {
        zero_fill_result(self.co_allocate(layout))
    }

    /// Moves a block to a new one of `new_layout`, which is at least as large:
    /// the first `old_layout.size()` bytes are copied over, the old block is
    /// deallocated. Where the new block cannot be had, the old one is handed
    /// back untouched.
    fn co_grow(&self, ptr_and_meta: PtrAndMeta<M>, old_layout: Layout, new_layout: Layout) -> (r:
        ResizeResult<M>)
        requires
            ptr_and_meta.ptr@.len() >= old_layout.size(),
            new_layout.size() >= old_layout.size(),
        ensures
            r matches Ok(s) ==> resized_from(
                ptr_and_meta.ptr@,
                s.slice@,
                old_layout.size() as int,
                new_layout.size() as int,
            ),
            r matches Err(f) ==> f.ptr_and_meta == ptr_and_meta,
    {
        match self.co_allocate(new_layout) {
            Err(error) => Err(ResizeFailure { error, ptr_and_meta }),
            Ok(s) => {
                let n = carry_prefix(&ptr_and_meta.ptr, s, old_layout.size());
                proof {
                    assert(n.slice@.subrange(0, old_layout.size() as int) =~= ptr_and_meta.ptr@.subrange(
                        0,
                        old_layout.size() as int,
                    ));
                }
                self.co_deallocate(ptr_and_meta, old_layout);
                Ok(n)
            },
        }
    }

    /// Like `co_grow`, but the new block comes from `co_allocate_zeroed`: past
    /// the first `old_layout.size()` bytes, every byte is zero.
    fn co_grow_zeroed(
        &self,
        ptr_and_meta: PtrAndMeta<M>,
        old_layout: Layout,
        new_layout: Layout,
    ) -> (r: ResizeResult<M>)
        requires
            ptr_and_meta.ptr@.len() >= old_layout.size(),
            new_layout.size() >= old_layout.size(),
        ensures
            r matches Ok(s) ==> resized_from(
                ptr_and_meta.ptr@,
                s.slice@,
                old_layout.size() as int,
                new_layout.size() as int,
            ) && all_zero(s.slice@.subrange(old_layout.size() as int, s.slice@.len() as int)),
            r matches Err(f) ==> f.ptr_and_meta == ptr_and_meta,
    {
        match self.co_allocate_zeroed(new_layout) {
            Err(error) => Err(ResizeFailure { error, ptr_and_meta }),
            Ok(s) => {
                let n = carry_prefix(&ptr_and_meta.ptr, s, old_layout.size());
                proof {
                    let size = old_layout.size() as int;
                    assert(n.slice@.subrange(0, size) =~= ptr_and_meta.ptr@.subrange(0, size));
                    assert(n.slice@.subrange(size, n.slice@.len() as int) =~= s.slice@.subrange(
                        size,
                        s.slice@.len() as int,
                    ));
                }
                self.co_deallocate(ptr_and_meta, old_layout);
                Ok(n)
            },
        }
    }

    /// Moves a block to a new one of `new_layout`, which is at most as large:
    /// the first `new_layout.size()` bytes are copied over, the old block is
    /// deallocated. Where the new block cannot be had, the old one is handed
    /// back untouched.
    fn co_shrink(&self, ptr_and_meta: PtrAndMeta<M>, old_layout: Layout, new_layout: Layout) -> (r:
        ResizeResult<M>)
        requires
            ptr_and_meta.ptr@.len() >= old_layout.size(),
            new_layout.size() <= old_layout.size(),
        ensures
            r matches Ok(s) ==> resized_from(
                ptr_and_meta.ptr@,
                s.slice@,
                new_layout.size() as int,
                new_layout.size() as int,
            ),
            r matches Err(f) ==> f.ptr_and_meta == ptr_and_meta,
    {
        match self.co_allocate(new_layout) {
            Err(error) => Err(ResizeFailure { error, ptr_and_meta }),
            Ok(s) => {
                let n = carry_prefix(&ptr_and_meta.ptr, s, new_layout.size());
                proof {
                    assert(n.slice@.subrange(0, new_layout.size() as int) =~= ptr_and_meta.ptr@.subrange(
                        0,
                        new_layout.size() as int,
                    ));
                }
                self.co_deallocate(ptr_and_meta, old_layout);
                Ok(n)
            },
        }
    }

    /// This allocator itself, by reference.
    fn by_ref(&self) -> (r: &Self)
        ensures
            r == self,
    {
        self
    }
}

} // verus!
