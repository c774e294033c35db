//! Client of a network device.

use vstd::prelude::*;
use crate::cap::Endpoint;
use crate::error::Error;
use crate::ipc::{is_plain_request, is_request, spec_min, MsgFlags, Utcb, IPC_BUFFER_SIZE};
use crate::protocol::net::{mac_from_bytes, MacAddress, GET_MAC, MAC_LEN, RECV, SEND};
use crate::protocol::NET_PROTO;

verus! {

/// Client of a network device.
pub struct NetClient {
    endpoint: Endpoint,
}

impl NetClient {
    /// The endpoint requests go to.
    pub closed spec fn ep(&self) -> Endpoint {
        self.endpoint
    }

    /// The endpoint requests go to.
    pub fn endpoint(&self) -> (e: Endpoint)
        ensures
            e == self.ep(),
    {
        self.endpoint
    }

    /// A client of the device at `endpoint`.
    pub fn new(endpoint: Endpoint) -> (c: NetClient)
        ensures
            c.ep() == endpoint,
    {
        NetClient { endpoint }
    }

    /// Request for the hardware address.
    pub fn mac_address_request(&self) -> (u: Utcb)
        ensures
            is_plain_request(u, NET_PROTO, GET_MAC, 0, Seq::empty()),
    {
        Utcb::request(NET_PROTO, GET_MAC, MsgFlags::none(), vec![])
    }

    /// The hardware address: the first six bytes of the reply's buffer when
    /// the call succeeded and it holds them, all zero otherwise.
    pub fn mac_address_reply(call: Result<(), Error>, reply: &Utcb) -> (m: MacAddress)
        ensures
            call is Ok && reply.buffer@.len() >= MAC_LEN ==> m.0@ == reply.buffer@.subrange(0, MAC_LEN as int),
            !(call is Ok && reply.buffer@.len() >= MAC_LEN) ==> m.0@ == seq![0u8, 0u8, 0u8, 0u8, 0u8, 0u8],
    {
        if call.is_ok() && reply.buffer.len() >= MAC_LEN {
            mac_from_bytes(reply.buffer.as_slice())
        } else {
            MacAddress::default()
        }
    }

    /// Request sending a frame: as much of `buf` as the IPC buffer holds.
    pub fn send_request(&self, buf: &[u8]) -> (u: Utcb)
        ensures
            is_request(u, NET_PROTO, SEND, 0, Seq::empty(),
                buf@.subrange(0, spec_min(buf@.len() as int, IPC_BUFFER_SIZE as int)), None, None),
    {
        let mut u = Utcb::request(NET_PROTO, SEND, MsgFlags::none(), vec![]);
        let _n = u.write(buf);
        u
    }

    /// Request for a received frame.
    pub fn recv_request(&self) -> (u: Utcb)
        ensures
            is_plain_request(u, NET_PROTO, RECV, 0, Seq::empty()),
    {
        Utcb::request(NET_PROTO, RECV, MsgFlags::none(), vec![])
    }

    /// Copies the received frame to the front of `buf`, as much as it
    /// holds; returns the number of bytes copied.
    pub fn recv_reply(reply: &Utcb, buf: &mut [u8]) -> (n: usize)
        ensures
            n == spec_min(reply.buffer@.len() as int, old(buf)@.len() as int),
            final(buf)@ == reply.buffer@.subrange(0, n as int) + old(buf)@.subrange(n as int, old(buf)@.len() as int),
    {
        reply.read(buf)
    }
}

} // verus!
