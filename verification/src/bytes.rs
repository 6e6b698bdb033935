//! Big-endian integer readers over byte buffers.

use vstd::prelude::*;

verus! {

/// Value of two big-endian bytes at `pos`.
pub open spec fn spec_be16_at(data: Seq<u8>, pos: int) -> int {
    data[pos] * 0x100 + data[pos + 1]
}

/// Value of four big-endian bytes at `pos`.
pub open spec fn spec_be32_at(data: Seq<u8>, pos: int) -> int {
    data[pos] * 0x1000000 + data[pos + 1] * 0x10000 + data[pos + 2] * 0x100 + data[pos + 3]
}

/// Value of eight big-endian bytes at `pos`.
pub open spec fn spec_be64_at(data: Seq<u8>, pos: int) -> int {
    spec_be32_at(data, pos) * 0x100000000 + spec_be32_at(data, pos + 4)
}

/// Read a big-endian 16-bit integer.
pub fn read_be_u16(data: &[u8], pos: usize) -> (r: u16)
    requires
        pos + 2 <= data@.len(),
    ensures
        r == spec_be16_at(data@, pos as int),
{
    (data[pos] as u16) * 0x100 + (data[pos + 1] as u16)
}

/// Read a big-endian 32-bit integer.
pub fn read_be_u32(data: &[u8], pos: usize) -> (r: u32)
    requires
        pos + 4 <= data@.len(),
    ensures
        r == spec_be32_at(data@, pos as int),
{
    (data[pos] as u32) * 0x1000000 + (data[pos + 1] as u32) * 0x10000 + (data[pos + 2] as u32)
        * 0x100 + (data[pos + 3] as u32)
}

/// Read a big-endian 64-bit integer.
pub fn read_be_u64(data: &[u8], pos: usize) -> (r: u64)
    requires
        pos + 8 <= data@.len(),
    ensures
        r == spec_be64_at(data@, pos as int),
{
    let n: usize = data.len();
    proof {
        assert(pos + 4 <= n);
    }
    let hi = read_be_u32(data, pos);
    let lo = read_be_u32(data, pos + 4);
    (hi as u64) * 0x100000000 + (lo as u64)
}

} // verus!
