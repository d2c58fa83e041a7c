//! Little-endian integer readers over a byte buffer, with their
//! mathematical models.

use vstd::prelude::*;

verus! {

/// The two bytes at `i` read as a little-endian integer.
pub open spec fn le16(s: Seq<u8>, i: int) -> int {
    s[i] + 0x100 * s[i + 1]
}

/// The four bytes at `i` read as a little-endian integer.
pub open spec fn le32(s: Seq<u8>, i: int) -> int {
    le16(s, i) + 0x1_0000 * le16(s, i + 2)
}

/// The eight bytes at `i` read as a little-endian integer.
pub open spec fn le64(s: Seq<u8>, i: int) -> int {
    le32(s, i) + 0x1_0000_0000 * le32(s, i + 4)
}

pub fn read_le16(b: &[u8], i: usize) -> (r: u16)
    requires
        i + 2 <= b@.len(),
    ensures
        r == le16(b@, i as int),
{
    b[i] as u16 + b[i + 1] as u16 * 0x100
}

pub fn read_le32(b: &[u8], i: usize) -> (r: u32)
    requires
        i + 4 <= b@.len(),
    ensures
        r == le32(b@, i as int),
{
    proof {
        vstd::slice::axiom_spec_len(b);
    }
    read_le16(b, i) as u32 + read_le16(b, i + 2) as u32 * 0x1_0000
}

pub fn read_le64(b: &[u8], i: usize) -> (r: u64)
    requires
        i + 8 <= b@.len(),
    ensures
        r == le64(b@, i as int),
{
    proof {
        vstd::slice::axiom_spec_len(b);
    }
    read_le32(b, i) as u64 + read_le32(b, i + 4) as u64 * 0x1_0000_0000
}

} // verus!
