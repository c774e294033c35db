//! Device manager service: operation labels.

use vstd::prelude::*;

verus! {

pub const SCAN_PLATFORM: usize = 1;
pub const GET_MMIO: usize = 2;
pub const GET_IRQ: usize = 3;
pub const REPORT_FRAME: usize = 4;
pub const REPORT: usize = 5;
pub const REPORT_STATE: usize = 6;
pub const UPDATE: usize = 7;
pub const REGISTER_LOGIC: usize = 8;
pub const ALLOC_LOGIC: usize = 9;
pub const QUERY: usize = 10;
pub const GET_DESC: usize = 11;
pub const GET_LOGIC_DESC: usize = 12;
pub const HOOK: usize = 13;
pub const UNHOOK: usize = 14;
pub const FIND_COMPATIBLE: usize = 15;
pub const ALLOC_DMA: usize = 16;

} // verus!
