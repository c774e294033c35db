//! Volume service: operation labels.

use vstd::prelude::*;
use crate::uring::{IoUringSqe, IOURING_OP_READ, IOURING_OP_WRITE};

verus! {

pub const GET_INFO: usize = 1;
pub const GET_DEVICE: usize = 2;
pub const SETUP_RING: usize = 3;
pub const ACQUIRE_SHM: usize = 4;
pub const REGISTER_SHM: usize = 5;
pub const PROBE_DEVICE: usize = 6;
pub const REPORT_STATE: usize = 7;
pub const MOUNT_PARTITION: usize = 8;

/// A read of `len` bytes from `sector` into the shared buffer at `addr`.
pub fn sqe_read(sector: usize, addr: usize, len: u32, user_data: usize) -> (s: IoUringSqe)
    ensures
        s == (IoUringSqe {
            opcode: IOURING_OP_READ,
            flags: 0,
            off: sector as u64,
            addr: addr as u64,
            len,
            user_data: user_data as u64,
        }),
{
    IoUringSqe {
        opcode: IOURING_OP_READ,
        flags: 0,
        off: sector as u64,
        addr: addr as u64,
        len,
        user_data: user_data as u64,
    }
}

/// A write of `len` bytes from the shared buffer at `addr` to `sector`.
pub fn sqe_write(sector: usize, addr: usize, len: u32, user_data: usize) -> (s: IoUringSqe)
    ensures
        s == (IoUringSqe {
            opcode: IOURING_OP_WRITE,
            flags: 0,
            off: sector as u64,
            addr: addr as u64,
            len,
            user_data: user_data as u64,
        }),
{
    IoUringSqe {
        opcode: IOURING_OP_WRITE,
        flags: 0,
        off: sector as u64,
        addr: addr as u64,
        len,
        user_data: user_data as u64,
    }
}

} // verus!
