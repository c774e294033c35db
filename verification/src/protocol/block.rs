//! Block device protocol: operation labels.

use vstd::prelude::*;

verus! {

pub const GET_CAPACITY: usize = 1;
pub const GET_BLOCK_SIZE: usize = 2;
pub const READ_BLOCKS: usize = 3;
pub const WRITE_BLOCKS: usize = 4;
pub const SYNC: usize = 5;

} // verus!
