use vstd::prelude::*;

verus! {

/// Size in bytes of one page.
pub const PGSIZE: usize = 4096;

/// The smallest multiple of `align` that is at least `x`.
pub open spec fn spec_align_up(x: int, align: int) -> int {
    if x % align == 0 {
        x
    } else {
        x + (align - x % align)
    }
}

/// Rounds `x` up to a multiple of `align`.
pub fn align_up(x: usize, align: usize) -> (r: usize)
    requires
        align > 0,
        x + align - 1 <= usize::MAX,
    ensures
        r == spec_align_up(x as int, align as int),
{
    let rem = x % align;
    if rem == 0 {
        x
    } else {
        x + (align - rem)
    }
}

/// Number of pages needed to hold `size` bytes: `size / PGSIZE` rounded up.
pub open spec fn spec_page_count(size: int) -> int {
    if size % (PGSIZE as int) == 0 {
        size / (PGSIZE as int)
    } else {
        size / (PGSIZE as int) + 1
    }
}

/// Number of pages needed to hold `size` bytes.
pub fn page_count(size: usize) -> (n: usize)
    ensures
        n == spec_page_count(size as int),
        n as int * (PGSIZE as int) >= size,
        (n as int - 1) * (PGSIZE as int) < size,
{
    let q = size / PGSIZE;
    if size % PGSIZE == 0 {
        q
    } else {
        q + 1
    }
}

/// Rounding up gives a multiple of the alignment, at least the value and
/// less than one alignment above it.
pub proof fn lemma_align_up(x: int, align: int)
    requires
        x >= 0,
        align > 0,
    ensures
        spec_align_up(x, align) % align == 0,
        x <= spec_align_up(x, align) < x + align,
{
    assert(x == align * (x / align) + x % align) by (nonlinear_arith)
        requires align > 0;
    if x % align != 0 {
        let r = spec_align_up(x, align);
        assert(r == align * (x / align + 1)) by (nonlinear_arith)
            requires r == x + (align - x % align), x == align * (x / align) + x % align;
        assert((align * (x / align + 1)) % align == 0) by (nonlinear_arith)
            requires align > 0;
    }
}

/// The page count of a size is the page-aligned size divided by the page
/// size.
pub proof fn lemma_page_count_is_aligned_pages(size: int)
    requires
        size >= 0,
    ensures
        spec_page_count(size) == spec_align_up(size, PGSIZE as int) / (PGSIZE as int),
{
    let p = PGSIZE as int;
    assert(size == p * (size / p) + size % p) by (nonlinear_arith)
        requires p > 0;
    if size % p != 0 {
        assert(spec_align_up(size, p) == p * (size / p + 1));
        assert((p * (size / p + 1)) / p == size / p + 1) by (nonlinear_arith)
            requires p > 0;
    } else {
        assert((p * (size / p)) / p == size / p) by (nonlinear_arith)
            requires p > 0;
    }
}

} // verus!
