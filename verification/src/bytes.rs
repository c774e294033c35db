use vstd::prelude::*;

verus! {

/// Copies the first `n` bytes of `src` over the first `n` bytes of `dst`.
pub fn copy_prefix(dst: &mut [u8], src: &[u8], n: usize)
    requires
        n <= old(dst)@.len(),
        n <= src@.len(),
    ensures
        final(dst)@ == src@.subrange(0, n as int) + old(dst)@.subrange(n as int, old(dst)@.len() as int),
{
    let mut i: usize = 0;
    while i < n
        invariant
            i <= n,
            n <= dst@.len(),
            n <= src@.len(),
            dst@.len() == old(dst)@.len(),
            forall|k: int| 0 <= k < i ==> dst@[k] == src@[k],
            forall|k: int| n <= k < dst@.len() ==> dst@[k] == old(dst)@[k],
        decreases n - i,
    {
        dst[i] = src[i];
        i = i + 1;
    }
    assert(dst@ =~= src@.subrange(0, n as int) + old(dst)@.subrange(n as int, old(dst)@.len() as int));
}

/// The bytes of `data` from `start` up to `end`.
pub fn sub_vec(data: &[u8], start: usize, end: usize) -> (v: Vec<u8>)
    requires
        start <= end <= data@.len(),
    ensures
        v@ == data@.subrange(start as int, end as int),
{
    let mut v: Vec<u8> = Vec::new();
    let mut i = start;
    while i < end
        invariant
            start <= i <= end,
            end <= data@.len(),
            v@ == data@.subrange(start as int, i as int),
        decreases end - i,
    {
        v.push(data[i]);
        i = i + 1;
        assert(v@ =~= data@.subrange(start as int, i as int));
    }
    v
}

/// The first `n` bytes of `data` followed by zeros up to `len` bytes.
pub open spec fn zero_padded(data: Seq<u8>, n: int, len: int) -> Seq<u8> {
    Seq::new(len as nat, |i: int| if i < n { data[i] } else { 0u8 })
}

/// A 256-byte block holding as much of `data` as fits, zero-padded.
pub fn fixed_256(data: &[u8]) -> (out: [u8; 256])
    ensures
        out@ == zero_padded(data@, if data@.len() < 256 { data@.len() as int } else { 256 }, 256),
{
    let mut out = [0u8; 256];
    let n = if data.len() < 256 { data.len() } else { 256 };
    let mut i: usize = 0;
    while i < n
        invariant
            i <= n,
            n <= 256,
            n <= data@.len(),
            n == (if data@.len() < 256 { data@.len() as int } else { 256 }),
            out@.len() == 256,
            forall|k: int| 0 <= k < i ==> out@[k] == data@[k],
            forall|k: int| i <= k < 256 ==> out@[k] == 0,
        decreases n - i,
    {
        out[i] = data[i];
        i = i + 1;
    }
    assert(out@ =~= zero_padded(data@, n as int, 256));
    out
}

/// A 1024-byte block holding as much of `data` as fits, zero-padded.
pub fn fixed_1024(data: &[u8]) -> (out: [u8; 1024])
    ensures
        out@ == zero_padded(data@, if data@.len() < 1024 { data@.len() as int } else { 1024 }, 1024),
{
    let mut out = [0u8; 1024];
    let n = if data.len() < 1024 { data.len() } else { 1024 };
    let mut i: usize = 0;
    while i < n
        invariant
            i <= n,
            n <= 1024,
            n <= data@.len(),
            n == (if data@.len() < 1024 { data@.len() as int } else { 1024 }),
            out@.len() == 1024,
            forall|k: int| 0 <= k < i ==> out@[k] == data@[k],
            forall|k: int| i <= k < 1024 ==> out@[k] == 0,
        decreases n - i,
    {
        out[i] = data[i];
        i = i + 1;
    }
    assert(out@ =~= zero_padded(data@, n as int, 1024));
    out
}

} // verus!
