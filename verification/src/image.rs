//! Image validation: parses the ELF64 header and program-header table of a
//! raw kernel image, enforces the one supported format profile and the
//! higher-half layout rules, and exposes the loadable segments and the entry
//! point.

use vstd::prelude::*;

use crate::bytes::{le16, le32, le64, read_le16, read_le32, read_le64};
use crate::KERNEL_VIRT_OFFSET;

verus! {

/// ELF identification byte marking a 64-bit image.
pub const ELFCLASS64: u8 = 2;

/// ELF identification byte marking a little-endian image.
pub const ELFDATA2LSB: u8 = 1;

/// Machine identifier of the one supported CPU family (x86-64).
pub const EM_X86_64: u16 = 62;

/// Program-header type of a loadable segment.
pub const PT_LOAD: u32 = 1;

/// Size in bytes of the ELF64 file header.
pub const EHDR_SIZE: u64 = 64;

/// Size in bytes of one ELF64 program-header entry.
pub const PHENT_SIZE: u64 = 56;

/// Why a load was refused. Every variant is fatal: the boot stage has no
/// fallback once the kernel image cannot be placed.
#[derive(Clone, Copy, Debug, PartialEq, Eq, Structural)]
pub enum LoadError {
    /// The buffer does not parse as a structurally valid ELF64 image.
    MalformedImage,
    /// Wrong word width, byte order or architecture identifier.
    UnsupportedFormat,
    /// The entry point or a loadable segment lies below the higher half.
    InvalidLayout,
    /// Firmware could not grant the requested physical pages.
    AllocationFailure,
    /// Firmware granted pages at an address other than the requested one.
    AllocationMismatch,
}

/// One entry of the segment table whose type marks it loadable.
#[derive(Clone, Copy, Debug, PartialEq, Eq, Structural)]
pub struct LoadableSegment {
    /// Offset of the segment's file-backed bytes inside the image.
    pub offset: u64,
    /// Number of bytes physically present in the image.
    pub file_size: u64,
    /// Number of bytes the segment occupies in memory; the excess over
    /// `file_size` is zero-filled.
    pub mem_size: u64,
    /// Target virtual address, at or above the higher-half offset.
    pub vaddr: u64,
}

/// Parsed image metadata: the format tag that was checked against the one
/// supported profile, and the entry virtual address.
#[derive(Clone, Copy, Debug, PartialEq, Eq, Structural)]
pub struct ImageHeader {
    /// Word-width identification byte; always `ELFCLASS64` after validation.
    pub word_width: u8,
    /// Byte-order identification byte; always `ELFDATA2LSB` after validation.
    pub byte_order: u8,
    /// Architecture identifier; always `EM_X86_64` after validation.
    pub machine: u16,
    /// Entry virtual address, at or above the higher-half offset.
    pub entry: u64,
}

/// A successfully validated image: header, loadable segments in table
/// order, and the entry point handed back to the caller.
#[derive(Debug, PartialEq, Eq)]
pub struct ValidatedImage {
    pub header: ImageHeader,
    pub segments: Vec<LoadableSegment>,
    pub entry: u64,
}

/// The buffer is long enough for the ELF identification and starts with the
/// ELF magic bytes.
pub open spec fn has_elf_ident(s: Seq<u8>) -> bool {
    s.len() >= 16 && s[0] == 0x7f && s[1] == 0x45 && s[2] == 0x4c && s[3] == 0x46
}

pub open spec fn spec_class(s: Seq<u8>) -> u8 {
    s[4]
}

pub open spec fn spec_byte_order(s: Seq<u8>) -> u8 {
    s[5]
}

pub open spec fn spec_machine(s: Seq<u8>) -> int {
    le16(s, 18)
}

pub open spec fn spec_entry(s: Seq<u8>) -> int {
    le64(s, 24)
}

pub open spec fn spec_phoff(s: Seq<u8>) -> int {
    le64(s, 32)
}

pub open spec fn spec_phentsize(s: Seq<u8>) -> int {
    le16(s, 54)
}

pub open spec fn spec_phnum(s: Seq<u8>) -> int {
    le16(s, 56)
}

/// The word width and byte order match the supported profile.
pub open spec fn class_and_order_ok(s: Seq<u8>) -> bool {
    spec_class(s) == ELFCLASS64 && spec_byte_order(s) == ELFDATA2LSB
}

/// The architecture identifier matches the supported CPU family.
pub open spec fn machine_ok(s: Seq<u8>) -> bool {
    spec_machine(s) == EM_X86_64
}

/// File offset of program-header entry `k`.
pub open spec fn phdr_base(s: Seq<u8>, k: int) -> int {
    spec_phoff(s) + PHENT_SIZE * k
}

pub open spec fn spec_p_type(s: Seq<u8>, k: int) -> int {
    le32(s, phdr_base(s, k))
}

/// Entry `k` of the segment table is of loadable type.
pub open spec fn spec_is_load(s: Seq<u8>, k: int) -> bool {
    spec_p_type(s, k) == PT_LOAD
}

pub open spec fn spec_p_offset(s: Seq<u8>, k: int) -> int {
    le64(s, phdr_base(s, k) + 8)
}

pub open spec fn spec_p_vaddr(s: Seq<u8>, k: int) -> int {
    le64(s, phdr_base(s, k) + 16)
}

pub open spec fn spec_p_filesz(s: Seq<u8>, k: int) -> int {
    le64(s, phdr_base(s, k) + 32)
}

pub open spec fn spec_p_memsz(s: Seq<u8>, k: int) -> int {
    le64(s, phdr_base(s, k) + 40)
}

/// The program-header table lies within the buffer and its entries have the
/// ELF64 size.
pub open spec fn table_in_bounds(s: Seq<u8>) -> bool {
    &&& spec_phnum(s) == 0 || spec_phentsize(s) == PHENT_SIZE
    &&& spec_phoff(s) + PHENT_SIZE * spec_phnum(s) <= s.len()
}

/// A loadable entry's file-backed bytes lie within the buffer and do not
/// exceed its in-memory size.
pub open spec fn load_entry_well_formed(s: Seq<u8>, k: int) -> bool {
    spec_is_load(s, k) ==> {
        &&& spec_p_filesz(s, k) <= spec_p_memsz(s, k)
        &&& spec_p_offset(s, k) + spec_p_filesz(s, k) <= s.len()
    }
}

pub open spec fn entries_well_formed(s: Seq<u8>) -> bool {
    forall|k: int| 0 <= k < spec_phnum(s) ==> load_entry_well_formed(s, k)
}

/// The buffer parses as a structurally valid ELF64 image.
pub open spec fn structure_ok(s: Seq<u8>) -> bool {
    &&& has_elf_ident(s)
    &&& s.len() >= EHDR_SIZE
    &&& table_in_bounds(s)
    &&& entries_well_formed(s)
}

/// The entry point lies in the higher half.
pub open spec fn entry_in_higher_half(s: Seq<u8>) -> bool {
    spec_entry(s) >= KERNEL_VIRT_OFFSET
}

/// Every loadable segment's virtual address lies in the higher half.
pub open spec fn segments_in_higher_half(s: Seq<u8>) -> bool {
    forall|k: int|
        0 <= k < spec_phnum(s) && spec_is_load(s, k) ==> spec_p_vaddr(s, k)
            >= KERNEL_VIRT_OFFSET
}

/// The image passes validation outright: structurally valid, of the one
/// supported format, and higher-half linked throughout.
pub open spec fn valid_image(s: Seq<u8>) -> bool {
    &&& structure_ok(s)
    &&& class_and_order_ok(s)
    &&& machine_ok(s)
    &&& entry_in_higher_half(s)
    &&& segments_in_higher_half(s)
}

/// The error an invalid image is rejected with. Structural checks come
/// first, then the format profile, then the layout rules.
pub open spec fn rejection(s: Seq<u8>) -> LoadError {
    if !has_elf_ident(s) {
        LoadError::MalformedImage
    } else if !class_and_order_ok(s) {
        LoadError::UnsupportedFormat
    } else if s.len() < EHDR_SIZE {
        LoadError::MalformedImage
    } else if !machine_ok(s) {
        LoadError::UnsupportedFormat
    } else if !(table_in_bounds(s) && entries_well_formed(s)) {
        LoadError::MalformedImage
    } else {
        LoadError::InvalidLayout
    }
}

/// The model of loadable entry `k` of the segment table.
pub open spec fn segment_model(s: Seq<u8>, k: int) -> LoadableSegment {
    LoadableSegment {
        offset: spec_p_offset(s, k) as u64,
        file_size: spec_p_filesz(s, k) as u64,
        mem_size: spec_p_memsz(s, k) as u64,
        vaddr: spec_p_vaddr(s, k) as u64,
    }
}

/// The loadable entries among the first `n` entries of the segment table,
/// in table order.
pub open spec fn loadable_segments_up_to(s: Seq<u8>, n: int) -> Seq<LoadableSegment>
    decreases n,
{
    if n <= 0 {
        Seq::empty()
    } else if spec_is_load(s, n - 1) {
        loadable_segments_up_to(s, n - 1).push(segment_model(s, n - 1))
    } else {
        loadable_segments_up_to(s, n - 1)
    }
}

/// All loadable segments of the image, in table order.
pub open spec fn loadable_segments(s: Seq<u8>) -> Seq<LoadableSegment> {
    loadable_segments_up_to(s, spec_phnum(s))
}

/// Parses and validates a raw kernel image. Returns the parsed header, the
/// loadable segments in table order and the entry point, or the exact error
/// the image is rejected with. Performs no allocation and copies no segment
/// bytes.
#[verifier::loop_isolation(false)]
pub fn validate(image: &[u8]) -> (r: Result<ValidatedImage, LoadError>)
    ensures
        match r {
            Result::Ok(v) => {
                &&& valid_image(image@)
                &&& v.header.word_width == ELFCLASS64
                &&& v.header.byte_order == ELFDATA2LSB
                &&& v.header.machine == EM_X86_64
                &&& v.header.entry == spec_entry(image@)
                &&& v.entry == spec_entry(image@)
                &&& v.segments@ == loadable_segments(image@)
            },
            Result::Err(e) => !valid_image(image@) && e == rejection(image@),
        },
{
    let n: usize = image.len();
    if n < 16 || image[0] != 0x7f || image[1] != 0x45 || image[2] != 0x4c || image[3] != 0x46 {
        return Result::Err(LoadError::MalformedImage);
    }
    if image[4] != ELFCLASS64 || image[5] != ELFDATA2LSB {
        return Result::Err(LoadError::UnsupportedFormat);
    }
    if (n as u64) < EHDR_SIZE {
        return Result::Err(LoadError::MalformedImage);
    }
    let machine = read_le16(image, 18);
    if machine != EM_X86_64 {
        return Result::Err(LoadError::UnsupportedFormat);
    }
    let entry_addr = read_le64(image, 24);
    let phoff = read_le64(image, 32);
    let phentsize = read_le16(image, 54);
    let phnum = read_le16(image, 56);
    if phnum != 0 && phentsize as u64 != PHENT_SIZE {
        return Result::Err(LoadError::MalformedImage);
    }
    let table_len: u64 = PHENT_SIZE * phnum as u64;
    if phoff > n as u64 || table_len > n as u64 - phoff {
        return Result::Err(LoadError::MalformedImage);
    }
    let mut k: u16 = 0;
    while k < phnum
        invariant
            k <= phnum,
            forall|j: int| 0 <= j < k ==> load_entry_well_formed(image@, j),
        decreases phnum - k,
    {
        let base: usize = (phoff + PHENT_SIZE * k as u64) as usize;
        proof {
            assert(base as int == phdr_base(image@, k as int));
        }
        let ptype = read_le32(image, base);
        if ptype == PT_LOAD {
            let p_offset = read_le64(image, base + 8);
            let p_filesz = read_le64(image, base + 32);
            let p_memsz = read_le64(image, base + 40);
            if p_filesz > p_memsz {
                proof {
                    assert(!load_entry_well_formed(image@, k as int));
                    assert(!entries_well_formed(image@));
                }
                return Result::Err(LoadError::MalformedImage);
            }
            if p_offset > n as u64 || p_filesz > n as u64 - p_offset {
                proof {
                    assert(!load_entry_well_formed(image@, k as int));
                    assert(!entries_well_formed(image@));
                }
                return Result::Err(LoadError::MalformedImage);
            }
        }
        k = k + 1;
    }
    if entry_addr < KERNEL_VIRT_OFFSET {
        return Result::Err(LoadError::InvalidLayout);
    }
    let mut segs: Vec<LoadableSegment> = Vec::new();
    let mut k: u16 = 0;
    while k < phnum
        invariant
            k <= phnum,
            segs@ == loadable_segments_up_to(image@, k as int),
            forall|j: int|
                0 <= j < k && spec_is_load(image@, j) ==> spec_p_vaddr(image@, j)
                    >= KERNEL_VIRT_OFFSET,
        decreases phnum - k,
    {
        let base: usize = (phoff + PHENT_SIZE * k as u64) as usize;
        proof {
            assert(base as int == phdr_base(image@, k as int));
        }
        let ptype = read_le32(image, base);
        if ptype == PT_LOAD {
            let p_vaddr = read_le64(image, base + 16);
            if p_vaddr < KERNEL_VIRT_OFFSET {
                proof {
                    assert(spec_is_load(image@, k as int));
                    assert(!segments_in_higher_half(image@));
                }
                return Result::Err(LoadError::InvalidLayout);
            }
            let p_offset = read_le64(image, base + 8);
            let p_filesz = read_le64(image, base + 32);
            let p_memsz = read_le64(image, base + 40);
            segs.push(
                LoadableSegment {
                    offset: p_offset,
                    file_size: p_filesz,
                    mem_size: p_memsz,
                    vaddr: p_vaddr,
                },
            );
            proof {
                assert(segs@ =~= loadable_segments_up_to(image@, k as int + 1));
            }
        }
        k = k + 1;
    }
    Result::Ok(
        ValidatedImage {
            header: ImageHeader {
                word_width: ELFCLASS64,
                byte_order: ELFDATA2LSB,
                machine: EM_X86_64,
                entry: entry_addr,
            },
            segments: segs,
            entry: entry_addr,
        },
    )
}

} // verus!
