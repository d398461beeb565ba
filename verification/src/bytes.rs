//! Fixed-width integer reads over byte buffers.
//!
//! All on-disk structures in the archive are sequences of little-endian or
//! big-endian fixed-width fields.  The spec functions here define the value of
//! such a field as plain arithmetic over the byte sequence, and the exec
//! readers are proved to return exactly that value.

use vstd::prelude::*;

verus! {

/// The 16-bit little-endian value stored at `off`.
pub open spec fn le16(b: Seq<u8>, off: int) -> u16 {
    (b[off] + b[off + 1] * 0x100) as u16
}

/// The 32-bit little-endian value stored at `off`.
pub open spec fn le32(b: Seq<u8>, off: int) -> u32 {
    (b[off] + b[off + 1] * 0x100 + b[off + 2] * 0x10000 + b[off + 3] * 0x1000000) as u32
}

/// The 64-bit little-endian value stored at `off`.
pub open spec fn le64(b: Seq<u8>, off: int) -> u64 {
    (le32(b, off) + le32(b, off + 4) * 0x100000000) as u64
}

/// The 16-bit big-endian value stored at `off`.
pub open spec fn be16(b: Seq<u8>, off: int) -> u16 {
    (b[off] * 0x100 + b[off + 1]) as u16
}

/// The 32-bit big-endian value stored at `off`.
pub open spec fn be32(b: Seq<u8>, off: int) -> u32 {
    (b[off] * 0x1000000 + b[off + 1] * 0x10000 + b[off + 2] * 0x100 + b[off + 3]) as u32
}

/// The 64-bit big-endian value stored at `off`.
pub open spec fn be64(b: Seq<u8>, off: int) -> u64 {
    (be32(b, off) * 0x100000000 + be32(b, off + 4)) as u64
}

pub fn read_le16(b: &[u8], off: usize) -> (r: u16)
    requires
        off + 2 <= b@.len(),
    ensures
        r == le16(b@, off as int),
{
    b[off] as u16 + (b[off + 1] as u16) * 0x100
}

pub fn read_le32(b: &[u8], off: usize) -> (r: u32)
    requires
        off + 4 <= b@.len(),
    ensures
        r == le32(b@, off as int),
{
    b[off] as u32 + (b[off + 1] as u32) * 0x100 + (b[off + 2] as u32) * 0x10000 + (b[off
        + 3] as u32) * 0x1000000
}

pub fn read_le64(b: &[u8], off: usize) -> (r: u64)
    requires
        off + 8 <= b@.len(),
    ensures
        r == le64(b@, off as int),
{
    let n = b.len();
    read_le32(b, off) as u64 + (read_le32(b, off + 4) as u64) * 0x100000000
}

pub fn read_be16(b: &[u8], off: usize) -> (r: u16)
    requires
        off + 2 <= b@.len(),
    ensures
        r == be16(b@, off as int),
{
    (b[off] as u16) * 0x100 + b[off + 1] as u16
}

pub fn read_be32(b: &[u8], off: usize) -> (r: u32)
    requires
        off + 4 <= b@.len(),
    ensures
        r == be32(b@, off as int),
{
    (b[off] as u32) * 0x1000000 + (b[off + 1] as u32) * 0x10000 + (b[off + 2] as u32) * 0x100 + b[off
        + 3] as u32
}

pub fn read_be64(b: &[u8], off: usize) -> (r: u64)
    requires
        off + 8 <= b@.len(),
    ensures
        r == be64(b@, off as int),
{
    let n = b.len();
    (read_be32(b, off) as u64) * 0x100000000 + read_be32(b, off + 4) as u64
}

/// Copies `b[start..end]` into a fresh buffer.
pub fn sub_vec(b: &[u8], start: usize, end: usize) -> (r: Vec<u8>)
    requires
        start <= end <= b@.len(),
    ensures
        r@ == b@.subrange(start as int, end as int),
{
    let mut r: Vec<u8> = Vec::new();
    let mut i: usize = start;
    while i < end
        invariant
            start <= i <= end <= b@.len(),
            r@ == b@.subrange(start as int, i as int),
        decreases end - i,
    {
        r.push(b[i]);
        assert(b@.subrange(start as int, i + 1 as int) == b@.subrange(start as int, i as int).push(
            b@[i as int],
        ));
        i += 1;
    }
    r
}

/// Appends all of `s` to `out`.
pub fn push_bytes(out: &mut Vec<u8>, s: &[u8])
    ensures
        final(out)@ == old(out)@ + s@,
{
    let n = s.len();
    let mut i: usize = 0;
    while i < n
        invariant
            0 <= i <= n,
            n == s@.len(),
            out@ == old(out)@ + s@.subrange(0, i as int),
        decreases n - i,
    {
        out.push(s[i]);
        assert(old(out)@ + s@.subrange(0, i + 1 as int) =~= (old(out)@ + s@.subrange(
            0,
            i as int,
        )).push(s@[i as int]));
        i += 1;
    }
    assert(s@.subrange(0, n as int) =~= s@);
}

/// Whether two byte slices hold the same bytes.
pub fn bytes_eq(a: &[u8], b: &[u8]) -> (r: bool)
    ensures
        r == (a@ == b@),
{
    if a.len() != b.len() {
        assert(a@.len() != b@.len());
        return false;
    }
    let n = a.len();
    let mut i: usize = 0;
    while i < n
        invariant
            0 <= i <= n,
            n == a@.len() == b@.len(),
            forall|j: int| 0 <= j < i ==> a@[j] == b@[j],
        decreases n - i,
    {
        if a[i] != b[i] {
            return false;
        }
        i += 1;
    }
    assert(a@ =~= b@);
    true
}

} // verus!
