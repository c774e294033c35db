//! Growth policy of the dynamically sized heap.

use vstd::prelude::*;
use crate::align::PGSIZE;

verus! {

/// Bytes to grow the heap by after an allocation of `size` bytes failed:
/// the larger of `size` and one page.
pub fn expand_size(size: usize) -> (n: usize)
    ensures
        n == if size > PGSIZE { size } else { PGSIZE },
        n >= size,
        n >= PGSIZE,
{
    if size > PGSIZE {
        size
    } else {
        PGSIZE
    }
}

/// The region handed to the allocator once the program break moved by
/// `size` bytes: from the old break, as answered, up to `size` bytes above
/// it; `Err` when the break could not move.
pub fn extension<E>(old_break: Result<usize, E>, size: usize) -> (r: Result<(usize, usize), ()>)
    requires
        old_break is Ok ==> old_break->Ok_0 + size <= usize::MAX,
    ensures
        old_break is Ok ==> r == Ok::<(usize, usize), ()>((old_break->Ok_0, (old_break->Ok_0 + size) as usize)),
        old_break is Err ==> r == Err::<(usize, usize), ()>(()),
{
    match old_break {
        Ok(start) => Ok((start, start + size)),
        Err(_) => Err(()),
    }
}

} // verus!
