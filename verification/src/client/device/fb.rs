//! Client of a framebuffer device.

use vstd::prelude::*;
use crate::cap::Endpoint;
use crate::drivers::protocol::fb::{fb_info_from_bytes, spec_fb_info_from_bytes, spec_zero_info, FbInfo, FB_INFO_SIZE};
use crate::error::Error;
use crate::ipc::{is_plain_request, MsgFlags, Utcb};
use crate::protocol::devfb::{FLUSH, GET_INFO};
use crate::protocol::DEV_FB_PROTO;

verus! {

/// Client of a framebuffer device.
pub struct FbClient {
    endpoint: Endpoint,
}

/// The description an info call gives: decoded from the reply's buffer
/// when the call succeeded and the buffer holds a whole one, all zero
/// otherwise.
pub open spec fn spec_device_info(call: Result<(), Error>, reply: Utcb) -> FbInfo {
    if call is Ok && reply.buffer@.len() >= FB_INFO_SIZE {
        spec_fb_info_from_bytes(reply.buffer@)
    } else {
        spec_zero_info()
    }
}

impl FbClient {
    /// The endpoint requests go to.
    pub closed spec fn ep(&self) -> Endpoint {
        self.endpoint
    }

    /// The endpoint requests go to.
    pub fn endpoint(&self) -> (e: Endpoint)
        ensures
            e == self.ep(),
    {
        self.endpoint
    }

    /// A client of the device at `endpoint`.
    pub fn new(endpoint: Endpoint) -> (c: FbClient)
        ensures
            c.ep() == endpoint,
    {
        FbClient { endpoint }
    }

    /// Request for the framebuffer description.
    pub fn get_info_request(&self) -> (u: Utcb)
        ensures
            is_plain_request(u, DEV_FB_PROTO, GET_INFO, 0, Seq::empty()),
    {
        Utcb::request(DEV_FB_PROTO, GET_INFO, MsgFlags::none(), vec![])
    }

    /// The description the info call gave (see [`spec_device_info`]).
    pub fn get_info_reply(call: Result<(), Error>, reply: &Utcb) -> (i: FbInfo)
        ensures
            i == spec_device_info(call, *reply),
    {
        if call.is_ok() && reply.buffer.len() >= FB_INFO_SIZE {
            fb_info_from_bytes(reply.buffer.as_slice())
        } else {
            FbInfo::default()
        }
    }

    /// Request flushing the `w` x `h` rectangle at (`x`, `y`).
    pub fn flush_request(&self, x: u32, y: u32, w: u32, h: u32) -> (u: Utcb)
        ensures
            is_plain_request(u, DEV_FB_PROTO, FLUSH, 0, seq![x as usize, y as usize, w as usize, h as usize]),
    {
        Utcb::request(DEV_FB_PROTO, FLUSH, MsgFlags::none(), vec![x as usize, y as usize, w as usize, h as usize])
    }
}

} // verus!
