//! Kernel-image loader core for a pre-OS boot stage.
//!
//! The library validates a raw ELF64 executable image against the one
//! supported profile (64-bit, little-endian, x86-64, higher-half linked) and
//! plans the exact physical placement of every loadable segment: the
//! translated physical address, the page count, and the byte content of the
//! destination region. The firmware page allocator, the memory-range tracker
//! and the raw writes to physical memory are the caller's side of the
//! boundary; the placer here checks each grant and refuses to go on after
//! any mismatch.

use vstd::prelude::*;

pub mod bytes;
pub mod image;
pub mod place;

verus! {

/// Size in bytes of one physical page on the target architecture.
pub const PAGE_SIZE: u64 = 0x1000;

/// First virtual address of the higher canonical half. A loadable segment's
/// virtual address translates to its physical address by subtracting this
/// offset.
pub const KERNEL_VIRT_OFFSET: u64 = 0xFFFF_8000_0000_0000;

} // verus!
