use vstd::prelude::*;

verus! {

/// The unsigned integer encoded little-endian in the 8 bytes of `d` starting at `off`.
pub open spec fn le_u64(d: Seq<u8>, off: int) -> nat {
    (d[off] as nat)
    + (d[off + 1] as nat) * 0x100
    + (d[off + 2] as nat) * 0x1_0000
    + (d[off + 3] as nat) * 0x100_0000
    + (d[off + 4] as nat) * 0x1_0000_0000
    + (d[off + 5] as nat) * 0x100_0000_0000
    + (d[off + 6] as nat) * 0x1_0000_0000_0000
    + (d[off + 7] as nat) * 0x100_0000_0000_0000
}

/// A little-endian 8-byte value always fits in a `u64`.
pub proof fn lemma_le_u64_bound(d: Seq<u8>, off: int)
    requires
        0 <= off,
        off + 8 <= d.len(),
    ensures
        le_u64(d, off) <= u64::MAX,
{
}

/// Reads the little-endian `u64` stored at `data[off..off + 8]`.
pub fn read_u64_le(data: &Vec<u8>, off: usize) -> (r: u64)
    requires
        off + 8 <= data.len(),
    ensures
        r as nat == le_u64(data@, off as int),
{
    let mut v: u64 = data[off + 7] as u64;
    v = v * 0x100 + data[off + 6] as u64;
    v = v * 0x100 + data[off + 5] as u64;
    v = v * 0x100 + data[off + 4] as u64;
    v = v * 0x100 + data[off + 3] as u64;
    v = v * 0x100 + data[off + 2] as u64;
    v = v * 0x100 + data[off + 1] as u64;
    v = v * 0x100 + data[off] as u64;
    v
}

/// Copies the 32 bytes at `data[off..off + 32]` into an address.
pub fn read_address(data: &Vec<u8>, off: usize) -> (r: [u8; 32])
    requires
        off + 32 <= data.len(),
    ensures
        r@ == data@.subrange(off as int, off + 32),
{
    let mut out = [0u8; 32];
    let mut i: usize = 0;
    while i < 32
        invariant
            i <= 32,
            off + 32 <= data.len(),
            forall|j: int| 0 <= j < i ==> out@[j] == data@[off + j],
        decreases 32 - i,
    {
        out[i] = data[off + i];
        i = i + 1;
    }
    assert(out@ =~= data@.subrange(off as int, off + 32));
    out
}

/// Returns whether two addresses hold the same bytes.
pub fn same_address(a: &[u8; 32], b: &[u8; 32]) -> (r: bool)
    ensures
        r == (a@ == b@),
{
    let mut i: usize = 0;
    while i < 32
        invariant
            i <= 32,
            forall|j: int| 0 <= j < i ==> a@[j] == b@[j],
        decreases 32 - i,
    {
        if a[i] != b[i] {
            return false;
        }
        i = i + 1;
    }
    assert(a@ =~= b@);
    true
}

} // verus!
