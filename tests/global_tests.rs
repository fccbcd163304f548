use coalloc::global::{zero_fill_block, GlobalCoAlloc, PtrAndMeta};
use coalloc::layout::Layout;
use std::cell::{Cell, RefCell};

/// Hands out blocks of exactly the layout's size, filled with 0xCC, numbered
/// by a counter that is the metadata; returns null above `limit` bytes.
struct Arena {
    limit: usize,
    next: Cell<u64>,
    released: RefCell<Vec<(Vec<u8>, u64, usize)>>,
}

impl Arena {
    fn new(limit: usize) -> Arena {
        Arena { limit, next: Cell::new(1), released: RefCell::new(Vec::new()) }
    }
}

impl GlobalCoAlloc<u64> for Arena {
    fn co_alloc(&self, layout: Layout) -> PtrAndMeta<u64> {
        if layout.size() > self.limit {
            return PtrAndMeta { ptr: None, meta: 0 };
        }
        let id = self.next.get();
        self.next.set(id + 1);
        PtrAndMeta { ptr: Some(vec![0xCC; layout.size()]), meta: id }
    }

    fn co_dealloc(&self, ptr_and_meta: PtrAndMeta<u64>, layout: Layout) {
        let bytes = ptr_and_meta.ptr.unwrap();
        self.released.borrow_mut().push((bytes, ptr_and_meta.meta, layout.size()));
    }
}

fn layout(size: usize, align: usize) -> Layout {
    Layout::from_size_align(size, align).unwrap()
}

fn pattern(n: usize) -> Vec<u8> {
    (0..n).map(|i| (i as u8).wrapping_mul(13).wrapping_add(1)).collect()
}

fn filled(arena: &Arena, size: usize) -> PtrAndMeta<u64> {
    let mut p = arena.co_alloc(layout(size, 8));
    p.ptr.as_mut().unwrap().copy_from_slice(&pattern(size));
    p
}

#[test]
fn null_address_is_null() {
    let p = PtrAndMeta { ptr: None, meta: 3u64 };
    assert!(p.is_null());
    let q = PtrAndMeta { ptr: Some(vec![1u8]), meta: 3u64 };
    assert!(!q.is_null());
}

#[test]
fn zero_fill_block_zeroes_the_first_bytes() {
    let p = PtrAndMeta { ptr: Some(vec![7u8, 7, 7, 7]), meta: 9u64 };
    let z = zero_fill_block(p, 2);
    assert_eq!(z.ptr, Some(vec![0, 0, 7, 7]));
    assert_eq!(z.meta, 9);
    let n = zero_fill_block(PtrAndMeta { ptr: None, meta: 4u64 }, 5);
    assert!(n.is_null());
    assert_eq!(n.meta, 4);
}

#[test]
fn alloc_zeroed_zeroes_every_byte() {
    let arena = Arena::new(1024);
    for size in [1usize, 7, 64] {
        let p = arena.co_alloc_zeroed(layout(size, 4));
        assert_eq!(p.ptr, Some(vec![0u8; size]));
    }
}

#[test]
fn alloc_zeroed_returns_null_when_exhausted() {
    let arena = Arena::new(16);
    assert!(arena.co_alloc_zeroed(layout(17, 4)).is_null());
}

#[test]
fn realloc_to_a_larger_size_copies_the_old_bytes() {
    let arena = Arena::new(1024);
    let old = filled(&arena, 10);
    let r = arena.co_realloc(old, layout(10, 8), 25);
    assert!(r.kept.is_none());
    let bytes = r.new.ptr.unwrap();
    assert_eq!(bytes.len(), 25);
    assert_eq!(&bytes[..10], &pattern(10)[..]);
    assert_eq!(r.new.meta, 2);
    let released = arena.released.borrow();
    assert_eq!(released.len(), 1);
    assert_eq!((released[0].1, released[0].2), (1, 10));
}

#[test]
fn realloc_to_a_smaller_size_copies_the_new_prefix() {
    let arena = Arena::new(1024);
    let old = filled(&arena, 30);
    let r = arena.co_realloc(old, layout(30, 8), 12);
    assert_eq!(r.new.ptr, Some(pattern(30)[..12].to_vec()));
    assert_eq!(arena.released.borrow().len(), 1);
}

#[test]
fn realloc_failure_keeps_the_old_block() {
    let arena = Arena::new(32);
    let old = filled(&arena, 32);
    let r = arena.co_realloc(old, layout(32, 8), 64);
    assert!(r.new.is_null());
    let kept = r.kept.unwrap();
    assert_eq!(kept.ptr, Some(pattern(32)));
    assert_eq!(kept.meta, 1);
    assert!(arena.released.borrow().is_empty());
}

#[test]
fn realloc_up_and_back_restores_the_block() {
    let arena = Arena::new(1024);
    let old = filled(&arena, 20);
    let up = arena.co_realloc(old, layout(20, 8), 50).new;
    let back = arena.co_realloc(up, layout(50, 8), 20).new;
    assert_eq!(back.ptr, Some(pattern(20)));
    assert_eq!(back.meta, 3);
}
