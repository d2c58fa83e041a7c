//! Segment placement: translates each loadable segment's virtual address to
//! the exact physical address it must occupy, computes the page count of the
//! allocation request, checks the firmware's grant against the request, and
//! produces the destination byte content (file-backed bytes followed by the
//! zero fill).
//!
//! The firmware allocator itself, the memory-range tracker and the raw write
//! into physical memory live outside this library: the caller performs each
//! requested allocation, hands the granted address back to the placer, and
//! copies the returned bytes to the granted range.

use vstd::prelude::*;

use crate::image::{LoadError, LoadableSegment};
use crate::{KERNEL_VIRT_OFFSET, PAGE_SIZE};

verus! {

/// Number of pages covering `mem_size` bytes: the in-memory size divided by
/// the page size, rounded up.
pub open spec fn spec_page_count(mem_size: int) -> int {
    (mem_size + PAGE_SIZE - 1) / (PAGE_SIZE as int)
}

/// The physical address a higher-half virtual address translates to.
pub open spec fn spec_phys_addr(vaddr: int) -> int {
    vaddr - KERNEL_VIRT_OFFSET
}

/// Translates a higher-half virtual address to the physical address that
/// must back it.
pub fn translate_to_phys(vaddr: u64) -> (r: u64)
    requires
        vaddr >= KERNEL_VIRT_OFFSET,
    ensures
        r == spec_phys_addr(vaddr as int),
{
    vaddr - KERNEL_VIRT_OFFSET
}

/// Number of pages to request for a segment of `mem_size` bytes in memory.
pub fn pages_for(mem_size: u64) -> (r: u64)
    ensures
        r == spec_page_count(mem_size as int),
{
    if mem_size % PAGE_SIZE == 0 {
        mem_size / PAGE_SIZE
    } else {
        mem_size / PAGE_SIZE + 1
    }
}

/// The page count rounds up and no further: the requested pages cover the
/// whole in-memory size of the segment, and dropping one page would not.
pub proof fn lemma_page_count_covers(mem_size: int)
    requires
        0 <= mem_size,
    ensures
        mem_size <= spec_page_count(mem_size) * PAGE_SIZE,
        spec_page_count(mem_size) * PAGE_SIZE < mem_size + PAGE_SIZE,
{
    vstd::arithmetic::div_mod::lemma_fundamental_div_mod(mem_size + PAGE_SIZE - 1, PAGE_SIZE as int);
    vstd::arithmetic::div_mod::lemma_mod_bound(mem_size + PAGE_SIZE - 1, PAGE_SIZE as int);
}

/// One allocation request: `pages` physical pages starting exactly at
/// `phys`, with no relocation fallback.
#[derive(Clone, Copy, Debug, PartialEq, Eq, Structural)]
pub struct PageRequest {
    pub phys: u64,
    pub pages: u64,
}

/// One placed segment: the physical range to record with the memory-range
/// tracker, and the exact bytes the destination region must hold.
pub struct PlacedSegment {
    /// Physical start address of the granted range.
    pub phys: u64,
    /// Number of pages granted at `phys`.
    pub pages: u64,
    /// Destination content: the segment's file-backed bytes followed by the
    /// zero fill, `mem_size` bytes in all.
    pub bytes: Vec<u8>,
}

/// Builds the destination content of a segment: the first `file_size` bytes
/// are copied from the image at the segment's file offset, the rest of the
/// `mem_size` bytes are zero.
#[verifier::loop_isolation(false)]
pub fn build_segment_bytes(image: &[u8], seg: &LoadableSegment) -> (r: Vec<u8>)
    requires
        seg.file_size <= seg.mem_size,
        seg.offset + seg.file_size <= image@.len(),
        seg.mem_size <= usize::MAX,
    ensures
        r@.len() == seg.mem_size,
        forall|i: int| 0 <= i < seg.file_size ==> r@[i] == image@[seg.offset + i],
        forall|i: int| seg.file_size <= i < seg.mem_size ==> r@[i] == 0,
{
    proof {
        vstd::slice::axiom_spec_len(image);
    }
    let offset = seg.offset as usize;
    let file_size = seg.file_size as usize;
    let mem_size = seg.mem_size as usize;
    let mut out: Vec<u8> = Vec::new();
    let mut i: usize = 0;
    while i < file_size
        invariant
            i <= file_size,
            file_size == seg.file_size,
            offset == seg.offset,
            seg.offset + seg.file_size <= image@.len(),
            out@.len() == i,
            forall|j: int| 0 <= j < i ==> out@[j] == image@[seg.offset + j],
        decreases file_size - i,
    {
        out.push(image[offset + i]);
        i = i + 1;
    }
    while i < mem_size
        invariant
            file_size <= i <= mem_size,
            file_size == seg.file_size,
            mem_size == seg.mem_size,
            out@.len() == i,
            forall|j: int| 0 <= j < file_size ==> out@[j] == image@[seg.offset + j],
            forall|j: int| file_size <= j < i ==> out@[j] == 0,
        decreases mem_size - i,
    {
        out.push(0);
        i = i + 1;
    }
    out
}

/// Walks the validated loadable segments in table order. For each segment it
/// hands out the exact allocation request, checks the firmware's grant, and
/// produces the destination bytes. After any failed or mismatched grant it
/// refuses to hand out further requests: no byte of that segment or of any
/// later one is placed.
pub struct SegmentPlacer {
    pub segments: Vec<LoadableSegment>,
    /// Index of the next segment to place.
    pub next: usize,
    /// A grant has failed or mismatched; the load is dead.
    pub failed: bool,
}

impl SegmentPlacer {
    /// Every segment is higher-half and its file-backed bytes fit its
    /// in-memory size, and the walk position is within bounds.
    pub open spec fn wf(&self) -> bool {
        &&& self.next <= self.segments@.len()
        &&& forall|j: int|
            0 <= j < self.segments@.len() ==> (#[trigger] self.segments@[j]).vaddr
                >= KERNEL_VIRT_OFFSET && self.segments@[j].file_size <= self.segments@[j].mem_size
    }

    /// The allocation request owed for segment `j`.
    pub open spec fn request_for(&self, j: int) -> PageRequest {
        PageRequest {
            phys: spec_phys_addr(self.segments@[j].vaddr as int) as u64,
            pages: spec_page_count(self.segments@[j].mem_size as int) as u64,
        }
    }

    pub fn new(segments: Vec<LoadableSegment>) -> (r: Self)
        requires
            forall|j: int|
                0 <= j < segments@.len() ==> (#[trigger] segments@[j]).vaddr
                    >= KERNEL_VIRT_OFFSET && segments@[j].file_size <= segments@[j].mem_size,
        ensures
            r.wf(),
            r.segments@ == segments@,
            r.next == 0,
            !r.failed,
    {
        SegmentPlacer { segments, next: 0, failed: false }
    }

    /// The allocation request for the current segment, or `None` once every
    /// segment is placed or a grant has gone wrong.
    pub fn next_request(&self) -> (r: Option<PageRequest>)
        requires
            self.wf(),
        ensures
            self.failed || self.next >= self.segments@.len() ==> r is None,
            !self.failed && self.next < self.segments@.len() ==> r == Some(
                self.request_for(self.next as int),
            ),
    {
        if self.failed || self.next >= self.segments.len() {
            None
        } else {
            let seg = self.segments[self.next];
            Some(PageRequest { phys: translate_to_phys(seg.vaddr), pages: pages_for(seg.mem_size) })
        }
    }

    /// Accepts the firmware's answer to the current request: `None` when the
    /// allocator failed, `Some(addr)` when it granted pages at `addr`. A
    /// failed or mismatched grant kills the whole load; an exact grant
    /// yields the placed segment and moves on to the next one.
    pub fn grant(&mut self, image: &[u8], granted: Option<u64>) -> (r: Result<
        PlacedSegment,
        LoadError,
    >)
        requires
            old(self).wf(),
            !old(self).failed,
            old(self).next < old(self).segments@.len(),
            old(self).segments@[old(self).next as int].offset + old(self).segments@[old(
                self,
            ).next as int].file_size <= image@.len(),
            old(self).segments@[old(self).next as int].mem_size <= usize::MAX,
        ensures
            final(self).wf(),
            final(self).segments@ == old(self).segments@,
            final(self).failed == !(granted == Some(old(self).request_for(
                old(self).next as int,
            ).phys)),
            granted is None ==> r == Result::<PlacedSegment, LoadError>::Err(
                LoadError::AllocationFailure,
            ) && final(self).next == old(self).next,
            (granted matches Some(addr) && addr != old(self).request_for(old(self).next as int).phys)
                ==> r == Result::<PlacedSegment, LoadError>::Err(LoadError::AllocationMismatch)
                && final(self).next == old(self).next,
            granted == Some(old(self).request_for(old(self).next as int).phys) ==> ({
                let seg = old(self).segments@[old(self).next as int];
                &&& final(self).next == old(self).next + 1
                &&& r matches Result::Ok(p)
                &&& p.phys == seg.vaddr - KERNEL_VIRT_OFFSET
                &&& p.pages == spec_page_count(seg.mem_size as int)
                &&& p.bytes@.len() == seg.mem_size
                &&& forall|i: int| 0 <= i < seg.file_size ==> p.bytes@[i] == image@[seg.offset + i]
                &&& forall|i: int| seg.file_size <= i < seg.mem_size ==> p.bytes@[i] == 0
            }),
    {
        proof {
            vstd::std_specs::vec::axiom_spec_len(&self.segments);
        }
        let seg = self.segments[self.next];
        let phys = translate_to_phys(seg.vaddr);
        match granted {
            None => {
                self.failed = true;
                Result::Err(LoadError::AllocationFailure)
            },
            Some(addr) => {
                if addr != phys {
                    self.failed = true;
                    Result::Err(LoadError::AllocationMismatch)
                } else {
                    let pages = pages_for(seg.mem_size);
                    let bytes = build_segment_bytes(image, &seg);
                    self.next = self.next + 1;
                    Result::Ok(PlacedSegment { phys, pages, bytes })
                }
            },
        }
    }
}

} // verus!
