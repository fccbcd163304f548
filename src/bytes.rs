use vstd::prelude::*;

verus! {

/// Every byte of `s` is zero.
pub open spec fn all_zero(s: Seq<u8>) -> bool {
    forall|i: int| 0 <= i < s.len() ==> s[i] == 0
}

/// `new` holds at least `size` bytes, and its first `kept` bytes are those of `old`.
pub open spec fn resized_from(old: Seq<u8>, new: Seq<u8>, kept: int, size: int) -> bool {
    &&& 0 <= kept <= old.len()
    &&& kept <= new.len()
    &&& size <= new.len()
    &&& new.subrange(0, kept) == old.subrange(0, kept)
}

/// Overwrites the first `count` bytes of `buf` with zero; the rest stay.
pub fn write_zeros(buf: &mut Vec<u8>, count: usize)
    requires
        count <= old(buf)@.len(),
    ensures
        final(buf)@.len() == old(buf)@.len(),
        forall|i: int| 0 <= i < count ==> final(buf)@[i] == 0,
        forall|i: int| count <= i < old(buf)@.len() ==> final(buf)@[i] == old(buf)@[i],
{
    let mut i: usize = 0;
    while i < count
        invariant
            i <= count <= buf@.len(),
            buf@.len() == old(buf)@.len(),
            forall|j: int| 0 <= j < i ==> buf@[j] == 0,
            forall|j: int| count <= j < buf@.len() ==> buf@[j] == old(buf)@[j],
        decreases count - i,
    {
        buf.set(i, 0);
        i = i + 1;
    }
}

/// Overwrites the first `count` bytes of `dst` with the first `count` bytes of
/// `src`; the rest of `dst` stays.
pub fn copy_prefix(dst: &mut Vec<u8>, src: &Vec<u8>, count: usize)
    requires
        count <= src@.len(),
        count <= old(dst)@.len(),
    ensures
        final(dst)@.len() == old(dst)@.len(),
        forall|i: int| 0 <= i < count ==> final(dst)@[i] == src@[i],
        forall|i: int| count <= i < old(dst)@.len() ==> final(dst)@[i] == old(dst)@[i],
{
    let mut i: usize = 0;
    while i < count
        invariant
            i <= count <= dst@.len(),
            count <= src@.len(),
            dst@.len() == old(dst)@.len(),
            forall|j: int| 0 <= j < i ==> dst@[j] == src@[j],
            forall|j: int| count <= j < dst@.len() ==> dst@[j] == old(dst)@[j],
        decreases count - i,
    {
        dst.set(i, src[i]);
        i = i + 1;
    }
}

} // verus!
