//! UART device protocol.

use vstd::prelude::*;
use crate::uring::{IoUringSqe, IOSQE_MULTISHOT, IOURING_OP_READ, IOURING_OP_WRITE};

verus! {

/// Write a byte buffer (synchronous).
pub const WRITE: usize = 0x01;
/// Read a byte buffer (synchronous / polled).
pub const READ: usize = 0x02;
/// Configuration.
pub const SET_BAUD_RATE: usize = 0x04;
pub const GET_CONFIG: usize = 0x05;
/// Write one character.
pub const PUT_CHAR: usize = 0x06;
/// Read one character.
pub const GET_CHAR: usize = 0x07;
/// Write a string carried in the IPC buffer.
pub const PUT_STR: usize = 0x08;
/// Set up the submission ring (primary IO channel).
/// Args: sq_entries, cq_entries. Reply: capability transfer (frame).
pub const SETUP_RING: usize = 0x10;
/// Set up the shared data buffer.
/// Args: vaddr, size, paddr, with the frame transferred.
pub const SETUP_BUFFER: usize = 0x11;
/// Tell the driver that new requests are in the submission queue.
pub const NOTIFY_SQ: usize = 0x12;
/// Asynchronous notification of IO completion.
pub const NOTIFY_IO: usize = 0x20;

/// A read of `len` bytes into `addr`.
pub fn sqe_read(addr: usize, len: u32, user_data: usize) -> (s: IoUringSqe)
    ensures
        s == (IoUringSqe { opcode: IOURING_OP_READ, flags: 0, off: 0, addr: addr as u64, len, user_data: user_data as u64 }),
{
    IoUringSqe { opcode: IOURING_OP_READ, flags: 0, off: 0, addr: addr as u64, len, user_data: user_data as u64 }
}

/// A read of `len` bytes into `addr` that completes once per arrival.
pub fn sqe_read_multishot(addr: usize, len: u32, user_data: usize) -> (s: IoUringSqe)
    ensures
        s == (IoUringSqe { opcode: IOURING_OP_READ, flags: IOSQE_MULTISHOT, off: 0, addr: addr as u64, len, user_data: user_data as u64 }),
{
    IoUringSqe { opcode: IOURING_OP_READ, flags: IOSQE_MULTISHOT, off: 0, addr: addr as u64, len, user_data: user_data as u64 }
}

/// A write of `len` bytes from `addr`.
pub fn sqe_write(addr: usize, len: u32, user_data: usize) -> (s: IoUringSqe)
    ensures
        s == (IoUringSqe { opcode: IOURING_OP_WRITE, flags: 0, off: 0, addr: addr as u64, len, user_data: user_data as u64 }),
{
    IoUringSqe { opcode: IOURING_OP_WRITE, flags: 0, off: 0, addr: addr as u64, len, user_data: user_data as u64 }
}

/// Line configuration of a UART.
#[derive(Debug, Clone, Copy, PartialEq, Eq, Structural)]
pub struct UartConfig {
    pub baud_rate: u32,
    pub data_bits: u8,
    pub stop_bits: u8,
    pub parity: u8,
}

impl Default for UartConfig {
    fn default() -> (c: UartConfig)
        ensures
            c == (UartConfig { baud_rate: 0, data_bits: 0, stop_bits: 0, parity: 0 }),
    {
        UartConfig { baud_rate: 0, data_bits: 0, stop_bits: 0, parity: 0 }
    }
}

} // verus!
