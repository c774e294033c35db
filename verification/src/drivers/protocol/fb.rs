//! Framebuffer protocol.

use vstd::prelude::*;
use crate::uring::IoUringSqe;
use crate::wire::{read_u64_le, spec_le_u64};

verus! {

pub const GET_INFO: usize = 0x1;
/// Args: x, y, w, h.
pub const FLUSH: usize = 0x2;
/// Args: paddr.
pub const SET_SCANOUT: usize = 0x3;
pub const SETUP_RING: usize = 0x10;
pub const SETUP_BUFFER: usize = 0x11;
pub const NOTIFY_SQ: usize = 0x12;

/// Ring operation: flush a rectangle.
pub const IOURING_OP_FB_FLUSH: u8 = 0x10;

pub const FB_FORMAT_RGB565: usize = 1;
pub const FB_FORMAT_XRGB8888: usize = 2;
pub const FB_FORMAT_ARGB8888: usize = 3;

/// The driver gets the rectangle back from a flush submission: the corner
/// from the high and low words of the offset, the size from those of the
/// address, for coordinates and sizes that fit in 32 bits.
pub proof fn lemma_flush_unpacks(x: u64, y: u64, w: u64, h: u64)
    requires
        x < 0x1_0000_0000,
        y < 0x1_0000_0000,
        w < 0x1_0000_0000,
        h < 0x1_0000_0000,
    ensures
        ((x << 32u64) | y) >> 32u64 == x,
        ((x << 32u64) | y) & 0xffff_ffff == y,
        ((w << 32u64) | h) >> 32u64 == w,
        ((w << 32u64) | h) & 0xffff_ffff == h,
{
    assert(((x << 32u64) | y) >> 32u64 == x) by (bit_vector)
        requires x < 0x1_0000_0000, y < 0x1_0000_0000;
    assert(((x << 32u64) | y) & 0xffff_ffff == y) by (bit_vector)
        requires x < 0x1_0000_0000, y < 0x1_0000_0000;
    assert(((w << 32u64) | h) >> 32u64 == w) by (bit_vector)
        requires w < 0x1_0000_0000, h < 0x1_0000_0000;
    assert(((w << 32u64) | h) & 0xffff_ffff == h) by (bit_vector)
        requires w < 0x1_0000_0000, h < 0x1_0000_0000;
}

/// Encoded size of a framebuffer description: seven 64-bit fields.
pub const FB_INFO_SIZE: usize = 56;

/// A flush of the `w` x `h` rectangle at (`x`, `y`): the corner packed
/// into the offset and the size into the address, high word first.
pub fn sqe_flush(x: usize, y: usize, w: usize, h: usize, user_data: usize) -> (s: IoUringSqe)
    ensures
        s == (IoUringSqe {
            opcode: IOURING_OP_FB_FLUSH,
            flags: 0,
            off: ((x as u64) << 32u64) | (y as u64),
            addr: ((w as u64) << 32u64) | (h as u64),
            len: 0,
            user_data: user_data as u64,
        }),
{
    IoUringSqe {
        opcode: IOURING_OP_FB_FLUSH,
        flags: 0,
        off: ((x as u64) << 32u64) | (y as u64),
        addr: ((w as u64) << 32u64) | (h as u64),
        len: 0,
        user_data: user_data as u64,
    }
}

/// Geometry, format and memory of a framebuffer.
#[derive(Debug, Clone, Copy, PartialEq, Eq, Structural)]
pub struct FbInfo {
    pub width: usize,
    pub height: usize,
    pub pitch: usize,
    pub format: usize,
    pub bpp: usize,
    pub paddr: usize,
    pub size: usize,
}

/// The description whose fields are all zero.
pub open spec fn spec_zero_info() -> FbInfo {
    FbInfo { width: 0, height: 0, pitch: 0, format: 0, bpp: 0, paddr: 0, size: 0 }
}

impl Default for FbInfo {
    fn default() -> (i: FbInfo)
        ensures
            i == spec_zero_info(),
    {
        FbInfo { width: 0, height: 0, pitch: 0, format: 0, bpp: 0, paddr: 0, size: 0 }
    }
}

/// The description encoded in the first bytes of `b`, fields in order as
/// little-endian 64-bit words.
pub open spec fn spec_fb_info_from_bytes(b: Seq<u8>) -> FbInfo {
    FbInfo {
        width: spec_le_u64(b, 0) as usize,
        height: spec_le_u64(b, 8) as usize,
        pitch: spec_le_u64(b, 16) as usize,
        format: spec_le_u64(b, 24) as usize,
        bpp: spec_le_u64(b, 32) as usize,
        paddr: spec_le_u64(b, 40) as usize,
        size: spec_le_u64(b, 48) as usize,
    }
}

/// Decodes a description from bytes that hold a whole one.
pub fn fb_info_from_bytes(b: &[u8]) -> (i: FbInfo)
    requires
        b@.len() >= FB_INFO_SIZE,
    ensures
        i == spec_fb_info_from_bytes(b@),
{
    FbInfo {
        width: read_u64_le(b, 0) as usize,
        height: read_u64_le(b, 8) as usize,
        pitch: read_u64_le(b, 16) as usize,
        format: read_u64_le(b, 24) as usize,
        bpp: read_u64_le(b, 32) as usize,
        paddr: read_u64_le(b, 40) as usize,
        size: read_u64_le(b, 48) as usize,
    }
}

} // verus!
