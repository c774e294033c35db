//! Framebuffer device protocol: operation labels.

use vstd::prelude::*;

verus! {

pub const GET_INFO: usize = 1;
pub const FLUSH: usize = 2;

} // verus!
