//! Process service: operation labels.

use vstd::prelude::*;

verus! {

pub const SPAWN: usize = 1;
pub const CREATE: usize = 2;
pub const EXIT: usize = 3;
pub const KILL: usize = 4;
pub const GET_CNODE: usize = 5;
pub const THREAD_CREATE: usize = 6;

} // verus!
