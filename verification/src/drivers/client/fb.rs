use vstd::prelude::*;
use crate::align::{page_count, spec_page_count};
use crate::cap::{CapPtr, Endpoint, Frame, Page};
use crate::client::resource::ResourceClient;
use crate::drivers::protocol::fb::{
    fb_info_from_bytes, sqe_flush, spec_fb_info_from_bytes, spec_zero_info, FbInfo, FB_INFO_SIZE,
    FLUSH, GET_INFO, SETUP_BUFFER, SETUP_RING, SET_SCANOUT, IOURING_OP_FB_FLUSH,
};
use crate::error::Error;
use crate::ipc::{is_plain_request, is_request, spec_contains, MsgFlags, Utcb, FLAG_HAS_CAP, FLAG_OK};
use crate::protocol::FB_PROTO;
use crate::shm::{SharedMemory, ShmParams};
use crate::uring::{IoUringClient, IoUringSqe, RingParams};

verus! {

/// Request id used for ring flushes.
pub const FLUSH_ID: usize = 0x2000;

/// Client of a framebuffer driver.
pub struct FbClient {
    endpoint: Endpoint,
    info: FbInfo,
    ring: Option<IoUringClient>,
    shm: Option<SharedMemory>,
    ring_params: Option<RingParams>,
    shm_params: Option<ShmParams>,
    res_client: Option<ResourceClient>,
}

/// A page to map read-write: `pages` pages of `page` at `vaddr`.
#[derive(Debug, Clone, Copy, PartialEq, Eq, Structural)]
pub struct PageMapping {
    pub page: Page,
    pub vaddr: usize,
    pub pages: usize,
}

/// How a flush is carried out: through the ring, waiting for the
/// completion of the submission, or by a direct call.
#[derive(Debug)]
pub enum FlushPlan {
    Ring(IoUringSqe),
    Call(Utcb),
}

/// The framebuffer description a `GET_INFO` reply carries: decoded from
/// the buffer when it holds a whole one, all zero otherwise.
pub open spec fn spec_info_reply(reply: Utcb) -> FbInfo {
    if reply.buffer@.len() >= FB_INFO_SIZE {
        spec_fb_info_from_bytes(reply.buffer@)
    } else {
        spec_zero_info()
    }
}

impl FbClient {
    pub closed spec fn ep(&self) -> Endpoint { self.endpoint }

    /// The endpoint requests go to.
    pub fn endpoint(&self) -> (e: Endpoint)
        ensures
            e == self.ep(),
    {
        self.endpoint
    }
    pub closed spec fn info_state(&self) -> FbInfo { self.info }
    pub closed spec fn ring_state(&self) -> Option<IoUringClient> { self.ring }
    pub closed spec fn shm_state(&self) -> Option<SharedMemory> { self.shm }
    pub closed spec fn ring_params_of(&self) -> Option<RingParams> { self.ring_params }
    pub closed spec fn shm_params_of(&self) -> Option<ShmParams> { self.shm_params }
    pub closed spec fn res(&self) -> Option<ResourceClient> { self.res_client }

    /// A client with nothing set up and an all-zero description.
    pub fn new(endpoint: Endpoint) -> (c: FbClient)
        ensures
            c.ep() == endpoint,
            c.info_state() == spec_zero_info(),
            c.ring_state() is None && c.shm_state() is None,
            c.ring_params_of() is None && c.shm_params_of() is None && c.res() is None,
    {
        FbClient {
            endpoint,
            info: FbInfo { width: 0, height: 0, pitch: 0, format: 0, bpp: 0, paddr: 0, size: 0 },
            ring: None,
            shm: None,
            ring_params: None,
            shm_params: None,
            res_client: None,
        }
    }

    /// A client that sets up a ring and a buffer with these parameters when
    /// it connects.
    pub fn with_params(endpoint: Endpoint, res_client: ResourceClient, ring_params: RingParams, shm_params: ShmParams) -> (c: FbClient)
        ensures
            c.ep() == endpoint,
            c.info_state() == spec_zero_info(),
            c.ring_state() is None && c.shm_state() is None,
            c.ring_params_of() == Some(ring_params),
            c.shm_params_of() == Some(shm_params),
            c.res() == Some(res_client),
    {
        FbClient {
            endpoint,
            info: FbInfo::default(),
            ring: None,
            shm: None,
            ring_params: Some(ring_params),
            shm_params: Some(shm_params),
            res_client: Some(res_client),
        }
    }

    /// Disconnecting has nothing to release.
    pub fn disconnect(&mut self) -> (r: Result<(), Error>)
        ensures
            r is Ok,
            *final(self) == *old(self),
    {
        Ok(())
    }

    /// The ring, once set up.
    pub fn ring(&self) -> (r: Option<&IoUringClient>)
        ensures
            match r {
                Some(x) => self.ring_state() == Some(*x),
                None => self.ring_state() is None,
            },
    {
        self.ring.as_ref()
    }

    /// Request for the framebuffer description.
    pub fn info_request(&self) -> (u: Utcb)
        ensures
            is_plain_request(u, FB_PROTO, GET_INFO, 0, Seq::empty()),
    {
        Utcb::request(FB_PROTO, GET_INFO, MsgFlags::none(), vec![])
    }

    /// Records the description a reply carries (see [`spec_info_reply`])
    /// and returns the ring parameters to set up next, if any.
    pub fn apply_info(&mut self, reply: &Utcb) -> (next: Option<RingParams>)
        ensures
            final(self).info_state() == spec_info_reply(*reply),
            next == old(self).ring_params_of(),
            final(self).ep() == old(self).ep(),
            final(self).ring_state() == old(self).ring_state(),
            final(self).shm_state() == old(self).shm_state(),
            final(self).ring_params_of() == old(self).ring_params_of(),
            final(self).res() == old(self).res(),
            final(self).shm_params_of() == old(self).shm_params_of(),
    {
        if reply.buffer.len() >= FB_INFO_SIZE {
            self.info = fb_info_from_bytes(reply.buffer.as_slice());
        } else {
            self.info = FbInfo::default();
        }
        self.ring_params
    }

    /// Request that sets up a ring with these parameters.
    pub fn ring_setup_request(&self, params: &RingParams) -> (u: Utcb)
        ensures
            is_request(u, FB_PROTO, SETUP_RING, FLAG_HAS_CAP, seq![params.sq_entries, params.cq_entries], Seq::empty(), Some(params.notify_ep.0), Some(params.recv_slot)),
    {
        let mut u = Utcb::request(FB_PROTO, SETUP_RING, MsgFlags::has_cap(), vec![params.sq_entries, params.cq_entries]);
        u.set_cap_transfer(params.notify_ep.cap());
        u.set_recv_window(params.recv_slot);
        u
    }

    /// The mapping of the received ring page; `InvalidArgs` when the
    /// client has no resource client to map with.
    pub fn ring_mapping(&self, params: &RingParams) -> (r: Result<PageMapping, Error>)
        ensures
            self.res() is None ==> r == Err::<PageMapping, Error>(Error::InvalidArgs),
            self.res() is Some ==> r == Ok::<PageMapping, Error>(PageMapping {
                page: Page(params.recv_slot),
                vaddr: params.vaddr,
                pages: spec_page_count(params.size as int) as usize,
            }),
    {
        if self.res_client.is_none() {
            return Err(Error::InvalidArgs);
        }
        Ok(PageMapping { page: Page::from(params.recv_slot), vaddr: params.vaddr, pages: page_count(params.size) })
    }

    /// The ring laid out in the mapped page, notifying this driver.
    pub fn complete_ring_setup(&mut self, params: &RingParams)
        ensures
            final(self).ring_state() == Some(IoUringClient {
                vaddr: params.vaddr,
                size: params.size,
                sq_entries: params.sq_entries as u32,
                cq_entries: params.cq_entries as u32,
                server_notify: Some(old(self).ep()),
            }),
            final(self).ep() == old(self).ep(),
            final(self).info_state() == old(self).info_state(),
            final(self).shm_state() == old(self).shm_state(),
            final(self).ring_params_of() == old(self).ring_params_of(),
            final(self).shm_params_of() == old(self).shm_params_of(),
            final(self).res() == old(self).res(),
    {
        let mut ring = IoUringClient::new(params.vaddr, params.size, params.sq_entries as u32, params.cq_entries as u32);
        ring.set_server_notify(self.endpoint);
        self.ring = Some(ring);
    }

    /// Request for the framebuffer memory, received in `recv_slot`.
    pub fn shm_request(&self, recv_slot: CapPtr) -> (u: Utcb)
        ensures
            is_request(u, FB_PROTO, SETUP_BUFFER, 0, Seq::empty(), Seq::empty(), None, Some(recv_slot)),
    {
        let mut u = Utcb::request(FB_PROTO, SETUP_BUFFER, MsgFlags::none(), vec![]);
        u.set_recv_window(recv_slot);
        u
    }

    /// The mapping of the framebuffer memory the driver granted: refused
    /// with `Generic` unless flagged `OK`; else `size` (register 1) bytes
    /// of the received page at `vaddr`.
    pub fn shm_mapping(reply: &Utcb, vaddr: usize, recv_slot: CapPtr) -> (r: Result<PageMapping, Error>)
        ensures
            !spec_contains(reply.tag.flags.bits, FLAG_OK) ==> r == Err::<PageMapping, Error>(Error::Generic),
            spec_contains(reply.tag.flags.bits, FLAG_OK) ==> r == Ok::<PageMapping, Error>(PageMapping {
                page: Page(recv_slot),
                vaddr,
                pages: spec_page_count(reply.mr(1) as int) as usize,
            }),
    {
        if !reply.get_msg_tag().flags().contains(MsgFlags::ok()) {
            return Err(Error::Generic);
        }
        Ok(PageMapping { page: Page::from(recv_slot), vaddr, pages: page_count(reply.get_mr(1)) })
    }

    /// Once mapped: the framebuffer memory becomes the shared buffer, known
    /// to the driver at `vaddr`, with its physical address (register 0)
    /// and size (register 1) also recorded in the description.
    pub fn complete_shm_setup(&mut self, reply: &Utcb, vaddr: usize, recv_slot: CapPtr) -> (shm: SharedMemory)
        ensures
            shm == (SharedMemory { frame: Frame(recv_slot), vaddr, size: reply.mr(1), client_vaddr: vaddr, paddr: reply.mr(0) }),
            final(self).shm_state() == Some(shm),
            final(self).info_state() == (FbInfo { paddr: reply.mr(0), size: reply.mr(1), ..old(self).info_state() }),
            final(self).ep() == old(self).ep(),
            final(self).ring_state() == old(self).ring_state(),
            final(self).ring_params_of() == old(self).ring_params_of(),
            final(self).shm_params_of() == old(self).shm_params_of(),
            final(self).res() == old(self).res(),
    {
        let paddr = reply.get_mr(0);
        let size = reply.get_mr(1);
        let mut shm = SharedMemory::new(Frame::from(recv_slot), vaddr, size);
        shm.set_client_vaddr(vaddr);
        shm.set_paddr(paddr);
        self.shm = Some(shm);
        self.info.paddr = paddr;
        self.info.size = size;
        shm
    }

    /// The framebuffer description.
    pub fn info(&self) -> (i: &FbInfo)
        ensures
            *i == self.info_state(),
    {
        &self.info
    }

    /// The framebuffer memory, once set up.
    pub fn shm(&self) -> (s: Option<&SharedMemory>)
        ensures
            match s {
                Some(x) => self.shm_state() == Some(*x),
                None => self.shm_state() is None,
            },
    {
        self.shm.as_ref()
    }

    /// A copy of the framebuffer description.
    pub fn get_info(&self) -> (i: FbInfo)
        ensures
            i == self.info_state(),
    {
        self.info
    }

    /// How to flush the `w` x `h` rectangle at (`x`, `y`): through the ring
    /// under the flush id when there is one, else by a direct call.
    pub fn flush_plan(&self, x: usize, y: usize, w: usize, h: usize) -> (p: FlushPlan)
        ensures
            self.ring_state() is Some ==> (p matches FlushPlan::Ring(s) && s == IoUringSqe {
                opcode: IOURING_OP_FB_FLUSH,
                flags: 0,
                off: ((x as u64) << 32u64) | (y as u64),
                addr: ((w as u64) << 32u64) | (h as u64),
                len: 0,
                user_data: FLUSH_ID as u64,
            }),
            self.ring_state() is None ==> (p matches FlushPlan::Call(u) && is_plain_request(u, FB_PROTO, FLUSH, 0, seq![x, y, w, h])),
    {
        if self.ring.is_some() {
            FlushPlan::Ring(sqe_flush(x, y, w, h, FLUSH_ID))
        } else {
            FlushPlan::Call(Utcb::request(FB_PROTO, FLUSH, MsgFlags::none(), vec![x, y, w, h]))
        }
    }

    /// Request to scan out from physical address `paddr`.
    pub fn set_scanout_request(&self, paddr: usize) -> (u: Utcb)
        ensures
            is_plain_request(u, FB_PROTO, SET_SCANOUT, 0, seq![paddr]),
    {
        Utcb::request(FB_PROTO, SET_SCANOUT, MsgFlags::none(), vec![paddr])
    }
}

} // verus!
