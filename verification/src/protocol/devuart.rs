//! UART device protocol: operation labels.

use vstd::prelude::*;

verus! {

pub const PUT_CHAR: usize = 1;
pub const GET_CHAR: usize = 2;
pub const PUT_STR: usize = 3;

} // verus!
