//! Cooperative allocation: allocator interfaces that hand out, and take back, a
//! piece of metadata of the allocator's choosing with every block of memory.
//!
//! A block is modelled by the bytes it holds, owned by whoever holds the block:
//! handing a block to a deallocating, growing or shrinking call moves it there.
//! Two interfaces are offered: `fallible::CoAllocator`, which reports failure
//! as an error, and `global::GlobalCoAlloc`, which reports it by the null
//! address.
pub mod bytes;
pub mod fallible;
pub mod global;
pub mod layout;
