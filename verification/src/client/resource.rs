use vstd::prelude::*;
use crate::cap::{Badge, CapPtr, Endpoint, Page};
use crate::error::Error;
use crate::ipc::{is_plain_request, is_request, MsgFlags, Utcb, FLAG_HAS_BUFFER, FLAG_HAS_CAP};
use crate::protocol::resource::{
    spec_cap_type_code, CapType, MemoryStatus, ResourceType, WarrenStatus, ALLOC, DMA_ALLOC,
    FREE, GET_CAP, GET_CONFIG, GET_STATUS, REGISTER_CAP, SBRK,
};
use crate::protocol::RESOURCE_PROTO;
use vstd::string::StringSliceAdditionalSpecFns;

verus! {

/// Client of the resource server, which hands out kernel objects and memory.
#[derive(Debug, Clone, Copy, PartialEq, Eq, Structural)]
pub struct ResourceClient {
    endpoint: Endpoint,
}

impl ResourceClient {
    /// The endpoint requests go to.
    pub closed spec fn ep(&self) -> Endpoint {
        self.endpoint
    }

    /// A client talking to the server at `endpoint`.
    pub fn new(endpoint: Endpoint) -> (c: ResourceClient)
        ensures
            c.ep() == endpoint,
    {
        ResourceClient { endpoint }
    }

    /// The endpoint requests go to.
    pub fn endpoint(&self) -> (e: Endpoint)
        ensures
            e == self.ep(),
    {
        self.endpoint
    }

    /// Request to move the program break by `increment` bytes (the signed
    /// increment travels as its two's-complement register value).
    pub fn brk_request(&self, increment: isize) -> (u: Utcb)
        ensures
            is_plain_request(u, RESOURCE_PROTO, SBRK, 0, seq![increment as usize]),
    {
        Utcb::request(RESOURCE_PROTO, SBRK, MsgFlags::none(), vec![increment as usize])
    }

    /// Request to allocate an object of kind `obj_type` into slot `recv`.
    pub fn alloc_request(&self, _pid: Badge, obj_type: CapType, flags: usize, recv: CapPtr) -> (u: Utcb)
        ensures
            is_plain_request(u, RESOURCE_PROTO, ALLOC, 0, seq![spec_cap_type_code(obj_type), flags, recv.0]),
    {
        Utcb::request(RESOURCE_PROTO, ALLOC, MsgFlags::none(), vec![obj_type.code(), flags, recv.bits()])
    }

    /// Request to allocate a capability-space node into slot `dest`.
    pub fn alloc_cnode_request(&self, dest: CapPtr) -> (u: Utcb)
        ensures
            is_plain_request(u, RESOURCE_PROTO, ALLOC, 0, seq![spec_cap_type_code(CapType::CNode), 0, dest.0]),
    {
        self.alloc_request(Badge::null(), CapType::CNode, 0, dest)
    }

    /// Request to allocate a page table into slot `dest`.
    pub fn alloc_pagetable_request(&self, dest: CapPtr) -> (u: Utcb)
        ensures
            is_plain_request(u, RESOURCE_PROTO, ALLOC, 0, seq![spec_cap_type_code(CapType::PageTable), 0, dest.0]),
    {
        self.alloc_request(Badge::null(), CapType::PageTable, 0, dest)
    }

    /// Request to allocate `pages` pages of DMA memory into slot `recv`.
    pub fn dma_alloc_request(&self, _pid: Badge, pages: usize, recv: CapPtr) -> (u: Utcb)
        ensures
            is_plain_request(u, RESOURCE_PROTO, DMA_ALLOC, 0, seq![pages, recv.0]),
    {
        Utcb::request(RESOURCE_PROTO, DMA_ALLOC, MsgFlags::none(), vec![pages, recv.bits()])
    }

    /// The DMA allocation's physical address and page.
    pub fn dma_alloc_reply(reply: &Utcb, recv: CapPtr) -> (r: (usize, Page))
        ensures
            r == (reply.mr(0), Page(recv)),
    {
        (reply.get_mr(0), Page::from(recv))
    }

    /// Request to free the object in slot `cap`.
    pub fn free_request(&self, _pid: Badge, cap: CapPtr) -> (u: Utcb)
        ensures
            is_plain_request(u, RESOURCE_PROTO, FREE, 0, seq![cap.0]),
    {
        Utcb::request(RESOURCE_PROTO, FREE, MsgFlags::none(), vec![cap.bits()])
    }

    /// Request for the capability registered under (`cap`, `id`).
    pub fn get_cap_request(&self, _pid: Badge, cap: ResourceType, id: usize, recv: CapPtr) -> (u: Utcb)
        ensures
            is_plain_request(u, RESOURCE_PROTO, GET_CAP, 0, seq![cap.0, id, recv.0]),
    {
        Utcb::request(RESOURCE_PROTO, GET_CAP, MsgFlags::none(), vec![cap.0, id, recv.bits()])
    }

    /// The slot the server placed the capability in.
    pub fn get_cap_reply(reply: &Utcb) -> (c: CapPtr)
        ensures
            c == CapPtr(reply.mr(0)),
    {
        CapPtr::from(reply.get_mr(0))
    }

    /// Request to register the capability in slot `cap` under
    /// (`cap_type`, `id`).
    pub fn register_cap_request(&self, _pid: Badge, cap_type: ResourceType, id: usize, cap: CapPtr) -> (u: Utcb)
        ensures
            is_request(u, RESOURCE_PROTO, REGISTER_CAP, FLAG_HAS_CAP, seq![cap_type.0, id], Seq::empty(), Some(cap), None),
    {
        let mut u = Utcb::request(RESOURCE_PROTO, REGISTER_CAP, MsgFlags::has_cap(), vec![cap_type.0, id]);
        u.set_cap_transfer(cap);
        u
    }

    /// Request for the configuration blob `name`, to be received in slot
    /// `recv`; fails when the name does not fit the IPC buffer.
    pub fn get_config_request(&self, _pid: Badge, name: &str, recv: CapPtr) -> (r: Result<Utcb, Error>)
        ensures
            match r {
                Ok(u) => is_request(u, RESOURCE_PROTO, GET_CONFIG, FLAG_HAS_BUFFER, seq![recv.0], name.spec_bytes(), None, None),
                Err(e) => e == Error::MessageTooLong && name.spec_bytes().len() > crate::ipc::IPC_BUFFER_SIZE,
            },
            r is Err <==> name.spec_bytes().len() > crate::ipc::IPC_BUFFER_SIZE,
    {
        let mut u = Utcb::request(RESOURCE_PROTO, GET_CONFIG, MsgFlags::has_buffer(), vec![recv.bits()]);
        match u.write_str(name) {
            Ok(()) => Ok(u),
            Err(e) => Err(e),
        }
    }

    /// The configuration page and its size in bytes.
    pub fn get_config_reply(reply: &Utcb, recv: CapPtr) -> (r: (Page, usize))
        ensures
            r == (Page(recv), reply.mr(0)),
    {
        (Page::from(recv), reply.get_mr(0))
    }

    /// Request for the server's status.
    pub fn status_request(&self, _pid: Badge) -> (u: Utcb)
        ensures
            is_plain_request(u, RESOURCE_PROTO, GET_STATUS, 0, Seq::empty()),
    {
        Utcb::request(RESOURCE_PROTO, GET_STATUS, MsgFlags::none(), vec![])
    }

    /// The status: available bytes in register 0, total bytes in register 1.
    pub fn status_reply(reply: &Utcb) -> (s: WarrenStatus)
        ensures
            s == (WarrenStatus {
                memory: MemoryStatus { available_bytes: reply.mr(0), total_bytes: reply.mr(1) },
            }),
    {
        WarrenStatus {
            memory: MemoryStatus { available_bytes: reply.get_mr(0), total_bytes: reply.get_mr(1) },
        }
    }
}

} // verus!
