//! Terminal service: operation labels.

use vstd::prelude::*;

verus! {

pub const TERM_GET_URING: usize = 1;
pub const TERM_SET_MODE: usize = 2;
pub const TERM_SET_DISPLAY: usize = 3;
pub const TERM_GET_WINSIZE: usize = 4;
pub const TERM_SET_WINSIZE: usize = 5;
pub const TERM_IOCTL: usize = 6;
pub const TERM_PUT_STR: usize = 7;
pub const VTS_ALLOC_VT: usize = 8;
pub const VTS_FREE_VT: usize = 9;
pub const VTS_LIST_VTS: usize = 10;
pub const VTS_LIST_SEATS: usize = 11;
pub const VTS_SWITCH_VT: usize = 12;
pub const VTS_BIND_SEAT: usize = 13;

/// How a terminal's submission ring is laid out in the shared frame.
#[derive(Debug, Clone, Copy, PartialEq, Eq, Structural)]
pub struct TerminalUringConfig {
    pub sq_entries: u32,
    pub cq_entries: u32,
    pub size: usize,
}

} // verus!
