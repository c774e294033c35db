//! Clients of the device service and of the devices it hands out.

pub mod block;
pub mod fb;
pub mod input;
pub mod manager;
pub mod net;
pub mod pci;
pub mod uart;

use vstd::prelude::*;
use crate::cap::Endpoint;
use crate::error::Error;
use crate::ipc::{is_plain_request, is_request, MsgFlags, Utcb, IPC_BUFFER_SIZE};
use crate::protocol::device::{ALLOC_DMA, FIND_COMPATIBLE, SCAN_PLATFORM};
use crate::protocol::DEVICE_PROTO;
use vstd::string::StringSliceAdditionalSpecFns;

verus! {

/// Client of the device service as a platform scanner and DMA source.
pub struct DeviceClient {
    endpoint: Endpoint,
}

impl DeviceClient {
    /// The endpoint requests go to.
    pub closed spec fn ep(&self) -> Endpoint {
        self.endpoint
    }

    /// The endpoint requests go to.
    pub fn endpoint(&self) -> (e: Endpoint)
        ensures
            e == self.ep(),
    {
        self.endpoint
    }

    /// A client of the service at `endpoint`.
    pub fn new(endpoint: Endpoint) -> (c: DeviceClient)
        ensures
            c.ep() == endpoint,
    {
        DeviceClient { endpoint }
    }

    /// Request to scan the platform described by the encoded `info`;
    /// refused with `MessageTooLong` when it does not fit the IPC buffer.
    pub fn scan_platform_request(&self, info: &[u8]) -> (r: Result<Utcb, Error>)
        ensures
            r is Err <==> info@.len() > IPC_BUFFER_SIZE,
            r is Err ==> r == Err::<Utcb, Error>(Error::MessageTooLong),
            r is Ok ==> is_request(r->Ok_0, DEVICE_PROTO, SCAN_PLATFORM, 0, Seq::empty(), info@, None, None),
    {
        Utcb::request_with_data(DEVICE_PROTO, SCAN_PLATFORM, MsgFlags::none(), vec![], info)
    }

    /// Request for the device node compatible with `compat`; refused with
    /// `MessageTooLong` when the string does not fit the IPC buffer.
    pub fn find_compatible_request(&self, compat: &str) -> (r: Result<Utcb, Error>)
        ensures
            r is Err <==> compat.spec_bytes().len() > IPC_BUFFER_SIZE,
            r is Err ==> r == Err::<Utcb, Error>(Error::MessageTooLong),
            r is Ok ==> is_request(r->Ok_0, DEVICE_PROTO, FIND_COMPATIBLE, 0, Seq::empty(), compat.spec_bytes(), None, None),
    {
        Utcb::request_with_str(DEVICE_PROTO, FIND_COMPATIBLE, MsgFlags::none(), vec![], compat)
    }

    /// Request for `size` bytes of DMA memory.
    pub fn alloc_dma_request(&self, size: usize) -> (u: Utcb)
        ensures
            is_plain_request(u, DEVICE_PROTO, ALLOC_DMA, 0, seq![size]),
    {
        Utcb::request(DEVICE_PROTO, ALLOC_DMA, MsgFlags::none(), vec![size])
    }

    /// The address of the DMA memory granted: register 0 of the reply.
    pub fn alloc_dma_reply(reply: &Utcb) -> (paddr: usize)
        ensures
            paddr == reply.mr(0),
    {
        reply.get_mr(0)
    }

    /// Releasing DMA memory sends nothing: the service has no operation
    /// for it, so the client is left as it was.
    pub fn free_dma(&mut self, _paddr: usize, _size: usize)
        ensures
            *final(self) == *old(self),
    {
    }
}

} // verus!
