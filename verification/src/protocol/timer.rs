//! Timer driver protocol: operation labels.

use vstd::prelude::*;

verus! {

pub const GET_TIME: usize = 1;
pub const SET_ALARM: usize = 2;
pub const STOP_ALARM: usize = 3;

} // verus!
