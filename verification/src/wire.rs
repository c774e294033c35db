use vstd::prelude::*;

verus! {

/// The little-endian value of the four bytes of `b` at `off`.
pub open spec fn spec_le_u32(b: Seq<u8>, off: int) -> u32 {
    (b[off] as u32) | ((b[off + 1] as u32) << 8u32) | ((b[off + 2] as u32) << 16u32) | ((b[off + 3] as u32) << 24u32)
}

/// The little-endian value of the eight bytes of `b` at `off`.
pub open spec fn spec_le_u64(b: Seq<u8>, off: int) -> u64 {
    (spec_le_u32(b, off) as u64) | ((spec_le_u32(b, off + 4) as u64) << 32u64)
}

/// Reads the little-endian `u64` at `off`.
pub fn read_u64_le(b: &[u8], off: usize) -> (v: u64)
    requires
        off + 8 <= b@.len(),
    ensures
        v == spec_le_u64(b@, off as int),
{
    let _n = b.len();
    let lo = read_u32_le(b, off);
    let hi = read_u32_le(b, off + 4);
    (lo as u64) | ((hi as u64) << 32u64)
}

/// The four little-endian bytes of `v`.
pub open spec fn spec_u32_le(v: u32) -> Seq<u8> {
    seq![(v & 0xff) as u8, ((v >> 8u32) & 0xff) as u8, ((v >> 16u32) & 0xff) as u8, ((v >> 24u32) & 0xff) as u8]
}

/// Reads the little-endian `u32` at `off`.
pub fn read_u32_le(b: &[u8], off: usize) -> (v: u32)
    requires
        off + 4 <= b@.len(),
    ensures
        v == spec_le_u32(b@, off as int),
{
    (b[off] as u32) | ((b[off + 1] as u32) << 8u32) | ((b[off + 2] as u32) << 16u32) | ((b[off + 3] as u32) << 24u32)
}

/// Appends the little-endian bytes of `v`.
pub fn push_u32_le(out: &mut Vec<u8>, v: u32)
    ensures
        final(out)@ == old(out)@ + spec_u32_le(v),
{
    out.push((v & 0xff) as u8);
    out.push(((v >> 8u32) & 0xff) as u8);
    out.push(((v >> 16u32) & 0xff) as u8);
    out.push(((v >> 24u32) & 0xff) as u8);
    assert(out@ =~= old(out)@ + spec_u32_le(v));
}

/// Reading back the bytes written for a value gives the value.
pub proof fn lemma_u32_le_round_trip(v: u32, pre: Seq<u8>, post: Seq<u8>)
    ensures
        spec_le_u32(pre + spec_u32_le(v) + post, pre.len() as int) == v,
{
    let b = pre + spec_u32_le(v) + post;
    let o = pre.len() as int;
    assert(b[o] == (v & 0xff) as u8);
    assert(b[o + 1] == ((v >> 8u32) & 0xff) as u8);
    assert(b[o + 2] == ((v >> 16u32) & 0xff) as u8);
    assert(b[o + 3] == ((v >> 24u32) & 0xff) as u8);
    let b0 = b[o];
    let b1 = b[o + 1];
    let b2 = b[o + 2];
    let b3 = b[o + 3];
    assert((b0 as u32) | ((b1 as u32) << 8u32) | ((b2 as u32) << 16u32) | ((b3 as u32) << 24u32) == v) by (bit_vector)
        requires
            b0 == (v & 0xff) as u8,
            b1 == ((v >> 8u32) & 0xff) as u8,
            b2 == ((v >> 16u32) & 0xff) as u8,
            b3 == ((v >> 24u32) & 0xff) as u8,
    ;
}

} // verus!
