//! Time service: operation labels.

use vstd::prelude::*;

verus! {

pub const TIME_NOW: usize = 1;
pub const MONO_NOW: usize = 2;
pub const SLEEP: usize = 3;
pub const ADJ_TIME: usize = 4;

} // verus!
