use vstd::prelude::*;
use std::sync::Arc;
use core::sync::atomic::AtomicUsize;
use core::sync::atomic::Ordering;
use crate::align::{page_count, spec_page_count};
use crate::bytes::copy_prefix;
use crate::cap::{Badge, CapPtr, Endpoint, Frame};
use crate::client::resource::ResourceClient;
use crate::error::Error;
use crate::ipc::{
    is_plain_request, is_request, spec_contains, MsgFlags, Utcb, FLAG_HAS_BUFFER, FLAG_HAS_CAP,
    FLAG_OK, IPC_BUFFER_SIZE,
};
use crate::protocol::init::ServiceState;
use crate::protocol::volume::{
    sqe_read, sqe_write, ACQUIRE_SHM, GET_DEVICE, GET_INFO, MOUNT_PARTITION, PROBE_DEVICE,
    REGISTER_SHM, REPORT_STATE, SETUP_RING,
};
use crate::protocol::VOLUME_PROTO;
use crate::shm::{SharedMemory, ShmParams};
use crate::uring::{IoUringClient, IoUringSqe, RingParams, IOURING_OP_READ, IOURING_OP_WRITE};
use vstd::string::StringSliceAdditionalSpecFns;


verus! {

/// A frame to map into the caller's address space: `pages` pages of
/// `frame`, read-write, at `vaddr`.
#[derive(Debug, Clone, Copy, PartialEq, Eq, Structural)]
pub struct FrameMapping {
    pub frame: Frame,
    pub vaddr: usize,
    pub pages: usize,
}

/// The shared buffer a volume server granted: its frame, where this client
/// maps it and its size.
#[derive(Debug, Clone, Copy, PartialEq, Eq, Structural)]
pub struct ShmGrant {
    pub frame: Frame,
    pub local_vaddr: usize,
    pub size: usize,
}

/// Client of a volume server, which reads and writes disk sectors through a
/// submission ring and a shared buffer.
#[derive(Clone)]
pub struct VolumeClient {
    endpoint: Endpoint,
    notify_ep: Option<Endpoint>,
    ring: Option<IoUringClient>,
    shm: Option<SharedMemory>,
    block_size: u32,
    total_sectors: usize,
    next_id: Arc<AtomicUsize>,
    ring_params: RingParams,
    shm_params: ShmParams,
    res_client: ResourceClient,
}

/// The error a block transfer of `len` bytes is refused with, if any:
/// `NotInitialized` without ring or shared buffer, `InvalidArgs` when the
/// block size is unknown or does not divide `len`, and, when `check_size`,
/// `InvalidArgs` when `len` exceeds the shared buffer.
pub open spec fn spec_transfer_error(
    ring: Option<IoUringClient>,
    shm: Option<SharedMemory>,
    block_size: u32,
    len: u32,
    check_size: bool,
) -> Option<Error> {
    if ring is None || shm is None {
        Some(Error::NotInitialized)
    } else if block_size == 0 || len % block_size != 0 {
        Some(Error::InvalidArgs)
    } else if check_size && len as int > shm->0.size {
        Some(Error::InvalidArgs)
    } else {
        None
    }
}

impl VolumeClient {
    pub closed spec fn ep(&self) -> Endpoint { self.endpoint }
    pub closed spec fn notify(&self) -> Option<Endpoint> { self.notify_ep }
    pub closed spec fn ring_state(&self) -> Option<IoUringClient> { self.ring }
    pub closed spec fn shm_state(&self) -> Option<SharedMemory> { self.shm }
    pub closed spec fn spec_block_size(&self) -> u32 { self.block_size }
    pub closed spec fn sectors(&self) -> usize { self.total_sectors }
    pub closed spec fn ring_params_of(&self) -> RingParams { self.ring_params }
    pub closed spec fn shm_params_of(&self) -> ShmParams { self.shm_params }
    pub closed spec fn res(&self) -> ResourceClient { self.res_client }

    /// A client that is not connected yet: no ring, no shared buffer,
    /// unknown geometry, ids counted from 0x1000.
    pub fn new(endpoint: Endpoint, res_client: &ResourceClient, ring_params: RingParams, shm_params: ShmParams) -> (c: VolumeClient)
        ensures
            c.ep() == endpoint,
            c.notify() is None,
            c.ring_state() is None,
            c.shm_state() is None,
            c.spec_block_size() == 0,
            c.sectors() == 0,
            c.ring_params_of() == ring_params,
            c.shm_params_of() == shm_params,
            c.res() == *res_client,
    {
        VolumeClient {
            endpoint,
            notify_ep: None,
            ring: None,
            shm: None,
            block_size: 0,
            total_sectors: 0,
            next_id: Arc::new(AtomicUsize::new(0x1000)),
            ring_params,
            shm_params,
            res_client: *res_client,
        }
    }

    /// A client that is not connected yet and whose ring and buffer
    /// parameters are all empty.
    pub fn new_simple(endpoint: Endpoint, res_client: &ResourceClient) -> (c: VolumeClient)
        ensures
            c.ep() == endpoint,
            c.notify() is None,
            c.ring_state() is None,
            c.shm_state() is None,
            c.spec_block_size() == 0,
            c.sectors() == 0,
            c.ring_params_of() == RingParams::spec_empty(),
            c.shm_params_of() == ShmParams::spec_empty(),
            c.res() == *res_client,
    {
        VolumeClient::new(endpoint, res_client, RingParams::empty(), ShmParams::empty())
    }

    /// Disconnecting has nothing to release.
    pub fn disconnect(&mut self) -> (r: Result<(), Error>)
        ensures
            r is Ok,
            *final(self) == *old(self),
    {
        Ok(())
    }

    /// The server's endpoint.
    pub fn endpoint(&self) -> (e: Endpoint)
        ensures
            e == self.ep(),
    {
        self.endpoint
    }

    /// Installs a shared buffer.
    pub fn set_shm(&mut self, shm: SharedMemory)
        ensures
            final(self).shm_state() == Some(shm),
            final(self).ring_state() == old(self).ring_state(),
            final(self).spec_block_size() == old(self).spec_block_size(),
            final(self).ep() == old(self).ep(),
            final(self).notify() == old(self).notify(),
            final(self).sectors() == old(self).sectors(),
            final(self).ring_params_of() == old(self).ring_params_of(),
            final(self).shm_params_of() == old(self).shm_params_of(),
            final(self).res() == old(self).res(),
    {
        self.shm = Some(shm);
    }

    /// Installs a submission ring.
    pub fn set_ring(&mut self, ring: IoUringClient)
        ensures
            final(self).ring_state() == Some(ring),
            final(self).shm_state() == old(self).shm_state(),
            final(self).spec_block_size() == old(self).spec_block_size(),
            final(self).ep() == old(self).ep(),
            final(self).notify() == old(self).notify(),
            final(self).sectors() == old(self).sectors(),
            final(self).ring_params_of() == old(self).ring_params_of(),
            final(self).shm_params_of() == old(self).shm_params_of(),
            final(self).res() == old(self).res(),
    {
        self.ring = Some(ring);
    }

    /// The submission ring, once set up.
    pub fn ring(&self) -> (r: Option<&IoUringClient>)
        ensures
            match r {
                Some(x) => self.ring_state() == Some(*x),
                None => self.ring_state() is None,
            },
    {
        self.ring.as_ref()
    }

    /// The shared buffer, once set up.
    pub fn shm(&self) -> (r: Option<&SharedMemory>)
        ensures
            match r {
                Some(x) => self.shm_state() == Some(*x),
                None => self.shm_state() is None,
            },
    {
        self.shm.as_ref()
    }

    /// Number of sectors on the volume.
    pub fn capacity(&self) -> (n: usize)
        ensures
            n == self.sectors(),
    {
        self.total_sectors
    }

    /// Size of one block in bytes (0 until connected).
    pub fn block_size(&self) -> (n: u32)
        ensures
            n == self.spec_block_size(),
    {
        self.block_size
    }

    /// The endpoint to block on while waiting for completions: the
    /// notification endpoint once set up, the server's endpoint before.
    pub fn wait_endpoint(&self) -> (e: Endpoint)
        ensures
            e == match self.notify() {
                Some(n) => n,
                None => self.ep(),
            },
    {
        match self.notify_ep {
            Some(n) => n,
            None => self.endpoint,
        }
    }

    /// A fresh request id, shared with every clone of this client.
    fn next_user_data(&self) -> usize {
        self.next_id.fetch_add(1, Ordering::SeqCst)
    }

    /// Request for the volume geometry.
    pub fn connect_request(&self) -> (u: Utcb)
        ensures
            is_plain_request(u, VOLUME_PROTO, GET_INFO, 0, Seq::empty()),
    {
        Utcb::request(VOLUME_PROTO, GET_INFO, MsgFlags::none(), vec![])
    }

    /// Takes in the geometry reply: refused with `Generic` unless flagged
    /// `OK`; else the block size (register 0, cut to 32 bits) and the
    /// sector count (register 1) are recorded.
    pub fn apply_info(&mut self, reply: &Utcb) -> (r: Result<(), Error>)
        ensures
            !spec_contains(reply.tag.flags.bits, FLAG_OK) ==> r == Err::<(), Error>(Error::Generic)
                && *final(self) == *old(self),
            spec_contains(reply.tag.flags.bits, FLAG_OK) ==> r is Ok
                && final(self).spec_block_size() == reply.mr(0) as u32
                && final(self).sectors() == reply.mr(1)
                && final(self).ring_state() == old(self).ring_state()
                && final(self).shm_state() == old(self).shm_state()
                && final(self).ep() == old(self).ep()
                && final(self).notify() == old(self).notify()
                && final(self).ring_params_of() == old(self).ring_params_of()
                && final(self).shm_params_of() == old(self).shm_params_of()
                && final(self).res() == old(self).res(),
    {
        if !reply.get_msg_tag().flags().contains(MsgFlags::ok()) {
            return Err(Error::Generic);
        }
        self.block_size = reply.get_mr(0) as u32;
        self.total_sectors = reply.get_mr(1);
        Ok(())
    }

    /// First step of ring setup: records the notification endpoint and
    /// returns the request that hands it to the server and asks for the
    /// ring frame in the receive slot.
    pub fn begin_ring_setup(&mut self) -> (u: Utcb)
        ensures
            final(self).notify() == Some(old(self).ring_params_of().notify_ep),
            final(self).ring_state() == old(self).ring_state(),
            final(self).shm_state() == old(self).shm_state(),
            final(self).ep() == old(self).ep(),
            final(self).spec_block_size() == old(self).spec_block_size(),
            final(self).ring_params_of() == old(self).ring_params_of(),
            final(self).shm_params_of() == old(self).shm_params_of(),
            is_request(
                u,
                VOLUME_PROTO,
                SETUP_RING,
                FLAG_HAS_CAP,
                seq![old(self).ring_params_of().sq_entries, old(self).ring_params_of().cq_entries],
                Seq::empty(),
                Some(old(self).ring_params_of().notify_ep.0),
                Some(old(self).ring_params_of().recv_slot),
            ),
            final(self).sectors() == old(self).sectors(),
            final(self).res() == old(self).res(),
    {
        let p = self.ring_params;
        self.notify_ep = Some(p.notify_ep);
        let mut u = Utcb::request(VOLUME_PROTO, SETUP_RING, MsgFlags::has_cap(), vec![p.sq_entries, p.cq_entries]);
        u.set_cap_transfer(p.notify_ep.cap());
        u.set_recv_window(p.recv_slot);
        u
    }

    /// Second step of ring setup: the received ring frame, mapped over as
    /// many pages as the ring size needs.
    pub fn ring_mapping(&self) -> (m: FrameMapping)
        ensures
            m == (FrameMapping {
                frame: Frame(self.ring_params_of().recv_slot),
                vaddr: self.ring_params_of().vaddr,
                pages: spec_page_count(self.ring_params_of().size as int) as usize,
            }),
    {
        FrameMapping {
            frame: Frame::from(self.ring_params.recv_slot),
            vaddr: self.ring_params.vaddr,
            pages: page_count(self.ring_params.size),
        }
    }

    /// Last step of ring setup: the ring laid out in the mapped frame,
    /// notifying the server on submission.
    pub fn complete_ring_setup(&mut self)
        ensures
            final(self).ring_state() == Some(IoUringClient {
                vaddr: old(self).ring_params_of().vaddr,
                size: old(self).ring_params_of().size,
                sq_entries: old(self).ring_params_of().sq_entries as u32,
                cq_entries: old(self).ring_params_of().cq_entries as u32,
                server_notify: Some(old(self).ep()),
            }),
            final(self).shm_state() == old(self).shm_state(),
            final(self).notify() == old(self).notify(),
            final(self).ep() == old(self).ep(),
            final(self).spec_block_size() == old(self).spec_block_size(),
            final(self).ring_params_of() == old(self).ring_params_of(),
            final(self).shm_params_of() == old(self).shm_params_of(),
            final(self).sectors() == old(self).sectors(),
            final(self).res() == old(self).res(),
    {
        let p = self.ring_params;
        let mut ring = IoUringClient::new(p.vaddr, p.size, p.sq_entries as u32, p.cq_entries as u32);
        ring.set_server_notify(self.endpoint);
        self.ring = Some(ring);
    }

    /// First step of buffer setup: the request for a shared buffer,
    /// proposing the configured address and naming the receive slot;
    /// refused with `InvalidArgs` when no receive slot is configured.
    pub fn begin_shm_setup(&self) -> (r: Result<Utcb, Error>)
        ensures
            self.shm_params_of().recv_slot.0 == 0 ==> r == Err::<Utcb, Error>(Error::InvalidArgs),
            self.shm_params_of().recv_slot.0 != 0 ==> r is Ok && is_request(
                r->Ok_0,
                VOLUME_PROTO,
                ACQUIRE_SHM,
                0,
                seq![self.shm_params_of().vaddr],
                Seq::empty(),
                None,
                Some(self.shm_params_of().recv_slot),
            ),
    {
        let recv = self.shm_params.recv_slot;
        if recv.is_null() {
            return Err(Error::InvalidArgs);
        }
        let mut u = Utcb::request(VOLUME_PROTO, ACQUIRE_SHM, MsgFlags::none(), vec![self.shm_params.vaddr]);
        u.set_recv_window(recv);
        Ok(u)
    }

    /// Reads the server's grant: refused with `Generic` unless flagged both
    /// `OK` and `HAS_CAP`; else the received frame, mapped at the
    /// configured address or, when none is configured, at the one the
    /// server suggests (register 0), with the size in register 1.
    pub fn shm_grant(&self, reply: &Utcb) -> (r: Result<ShmGrant, Error>)
        ensures
            !spec_contains(reply.tag.flags.bits, FLAG_OK | FLAG_HAS_CAP) ==> r == Err::<ShmGrant, Error>(Error::Generic),
            spec_contains(reply.tag.flags.bits, FLAG_OK | FLAG_HAS_CAP) ==> r == Ok::<ShmGrant, Error>(ShmGrant {
                frame: Frame(self.shm_params_of().recv_slot),
                local_vaddr: if self.shm_params_of().vaddr != 0 { self.shm_params_of().vaddr } else { reply.mr(0) },
                size: reply.mr(1),
            }),
    {
        if !reply.get_msg_tag().flags().contains(MsgFlags::ok().union(MsgFlags::has_cap())) {
            return Err(Error::Generic);
        }
        let srv_vaddr = reply.get_mr(0);
        let srv_size = reply.get_mr(1);
        let vaddr = self.shm_params.vaddr;
        let local_vaddr = if vaddr != 0 { vaddr } else { srv_vaddr };
        Ok(ShmGrant { frame: Frame::from(self.shm_params.recv_slot), local_vaddr, size: srv_size })
    }

    /// The mapping a grant needs: its whole size, rounded up to pages.
    pub fn shm_mapping(grant: &ShmGrant) -> (m: FrameMapping)
        ensures
            m == (FrameMapping {
                frame: grant.frame,
                vaddr: grant.local_vaddr,
                pages: spec_page_count(grant.size as int) as usize,
            }),
    {
        FrameMapping { frame: grant.frame, vaddr: grant.local_vaddr, pages: page_count(grant.size) }
    }

    /// The request that tells the server where the buffer is mapped here.
    pub fn shm_register_request(grant: &ShmGrant) -> (u: Utcb)
        ensures
            is_plain_request(u, VOLUME_PROTO, REGISTER_SHM, 0, seq![grant.local_vaddr, grant.size]),
    {
        Utcb::request(VOLUME_PROTO, REGISTER_SHM, MsgFlags::none(), vec![grant.local_vaddr, grant.size])
    }

    /// Last step of buffer setup: the granted buffer becomes the shared
    /// buffer, known to the server by its local address.
    pub fn complete_shm_setup(&mut self, grant: &ShmGrant)
        ensures
            final(self).shm_state() == Some(SharedMemory {
                frame: grant.frame,
                vaddr: grant.local_vaddr,
                size: grant.size,
                client_vaddr: grant.local_vaddr,
                paddr: 0,
            }),
            final(self).ring_state() == old(self).ring_state(),
            final(self).notify() == old(self).notify(),
            final(self).ep() == old(self).ep(),
            final(self).spec_block_size() == old(self).spec_block_size(),
            final(self).sectors() == old(self).sectors(),
            final(self).ring_params_of() == old(self).ring_params_of(),
            final(self).shm_params_of() == old(self).shm_params_of(),
            final(self).res() == old(self).res(),
    {
        let mut shm = SharedMemory::new(grant.frame, grant.local_vaddr, grant.size);
        shm.set_client_vaddr(grant.local_vaddr);
        self.shm = Some(shm);
    }

    /// The error, if any, that refuses a transfer of `len` bytes.
    fn transfer_error(&self, len: u32, check_size: bool) -> (r: Option<Error>)
        ensures
            r == spec_transfer_error(self.ring_state(), self.shm_state(), self.spec_block_size(), len, check_size),
    {
        if self.ring.is_none() || self.shm.is_none() {
            return Some(Error::NotInitialized);
        }
        if self.block_size == 0 || len % self.block_size != 0 {
            return Some(Error::InvalidArgs);
        }
        if check_size {
            match &self.shm {
                Some(s) => {
                    if len as usize > s.size() {
                        return Some(Error::InvalidArgs);
                    }
                },
                None => {},
            }
        }
        None
    }

    /// The submission for reading `len` bytes at `sector` straight into the
    /// shared buffer at `shm_vaddr`, under a fresh id; refused as
    /// [`spec_transfer_error`] says (without the size check).
    pub fn prepare_read_shm(&self, sector: usize, len: u32, shm_vaddr: usize) -> (r: Result<IoUringSqe, Error>)
        ensures
            match spec_transfer_error(self.ring_state(), self.shm_state(), self.spec_block_size(), len, false) {
                Some(e) => r == Err::<IoUringSqe, Error>(e),
                None => r is Ok && r->Ok_0.opcode == IOURING_OP_READ && r->Ok_0.flags == 0
                    && r->Ok_0.off == sector as u64 && r->Ok_0.addr == shm_vaddr as u64
                    && r->Ok_0.len == len,
            },
    {
        match self.transfer_error(len, false) {
            Some(e) => Err(e),
            None => {
                let id = self.next_user_data();
                Ok(sqe_read(sector, shm_vaddr, len, id))
            },
        }
    }

    /// The submission for reading `len` bytes at `sector` into the start of
    /// the shared buffer, under a fresh id; refused as
    /// [`spec_transfer_error`] says, with the size check.
    pub fn prepare_read_at(&self, sector: usize, len: u32) -> (r: Result<IoUringSqe, Error>)
        ensures
            (self.ring_state() is Some && self.shm_state() is Some && self.spec_block_size() != 0
                && len % self.spec_block_size() == 0 && len as int <= self.shm_state()->0.size) ==> r is Ok,
            (self.ring_state() is Some && self.shm_state() is Some && self.spec_block_size() != 0
                && len % self.spec_block_size() == 0 && len as int > self.shm_state()->0.size)
                ==> r == Err::<IoUringSqe, Error>(Error::InvalidArgs),
            match spec_transfer_error(self.ring_state(), self.shm_state(), self.spec_block_size(), len, true) {
                Some(e) => r == Err::<IoUringSqe, Error>(e),
                None => r is Ok && r->Ok_0.opcode == IOURING_OP_READ && r->Ok_0.flags == 0
                    && r->Ok_0.off == sector as u64
                    && r->Ok_0.addr == self.shm_state()->0.client_vaddr as u64
                    && r->Ok_0.len == len,
            },
    {
        match self.transfer_error(len, true) {
            Some(e) => Err(e),
            None => {
                let id = self.next_user_data();
                let addr = match &self.shm {
                    Some(s) => s.client_vaddr(),
                    None => 0,
                };
                Ok(sqe_read(sector, addr, len, id))
            },
        }
    }

    /// The submission for writing `len` bytes from the start of the shared
    /// buffer to `sector`, under a fresh id; refused as
    /// [`spec_transfer_error`] says, with the size check.
    pub fn prepare_write_at(&self, sector: usize, len: u32) -> (r: Result<IoUringSqe, Error>)
        ensures
            (self.ring_state() is Some && self.shm_state() is Some && self.spec_block_size() != 0
                && len % self.spec_block_size() == 0 && len as int <= self.shm_state()->0.size) ==> r is Ok,
            (self.ring_state() is Some && self.shm_state() is Some && self.spec_block_size() != 0
                && len % self.spec_block_size() == 0 && len as int > self.shm_state()->0.size)
                ==> r == Err::<IoUringSqe, Error>(Error::InvalidArgs),
            match spec_transfer_error(self.ring_state(), self.shm_state(), self.spec_block_size(), len, true) {
                Some(e) => r == Err::<IoUringSqe, Error>(e),
                None => r is Ok && r->Ok_0.opcode == IOURING_OP_WRITE && r->Ok_0.flags == 0
                    && r->Ok_0.off == sector as u64
                    && r->Ok_0.addr == self.shm_state()->0.client_vaddr as u64
                    && r->Ok_0.len == len,
            },
    {
        match self.transfer_error(len, true) {
            Some(e) => Err(e),
            None => {
                let id = self.next_user_data();
                let addr = match &self.shm {
                    Some(s) => s.client_vaddr(),
                    None => 0,
                };
                Ok(sqe_write(sector, addr, len, id))
            },
        }
    }

    /// Bytes moved between the shared buffer and a caller's buffer of
    /// `buf_len` bytes for a transfer of `len` bytes: the smaller of the two.
    pub fn staged_len(len: u32, buf_len: usize) -> (n: usize)
        ensures
            n as int == if (len as int) < buf_len { len as int } else { buf_len as int },
    {
        if (len as usize) < buf_len {
            len as usize
        } else {
            buf_len
        }
    }

    /// After a read of `len` bytes completed: copies what fits of the
    /// shared buffer's contents `shm_data` into `buf`.
    pub fn finish_read_at(len: u32, shm_data: &[u8], buf: &mut [u8])
        requires
            shm_data@.len() >= len,
        ensures
            final(buf)@ == shm_data@.subrange(0, if (len as int) < old(buf)@.len() { len as int } else { old(buf)@.len() as int })
                + old(buf)@.subrange(if (len as int) < old(buf)@.len() { len as int } else { old(buf)@.len() as int }, old(buf)@.len() as int),
    {
        let n = Self::staged_len(len, buf.len());
        copy_prefix(buf, shm_data, n);
    }

    /// Before a write of `len` bytes: copies what fits of `buf` into the
    /// shared buffer's contents `shm_data`.
    pub fn stage_write_at(len: u32, buf: &[u8], shm_data: &mut [u8])
        requires
            old(shm_data)@.len() >= len,
        ensures
            final(shm_data)@ == buf@.subrange(0, if (len as int) < buf@.len() { len as int } else { buf@.len() as int })
                + old(shm_data)@.subrange(if (len as int) < buf@.len() { len as int } else { buf@.len() as int }, old(shm_data)@.len() as int),
    {
        let n = Self::staged_len(len, buf.len());
        copy_prefix(shm_data, buf, n);
    }

    /// Byte length of `count` blocks.
    pub fn blocks_len(&self, count: u32) -> (n: u32)
        requires
            count * self.spec_block_size() <= u32::MAX,
        ensures
            n == count * self.spec_block_size(),
    {
        count * self.block_size
    }

    /// The submission for reading `count` blocks at `sector`.
    pub fn prepare_read_blocks(&self, sector: usize, count: u32) -> (r: Result<IoUringSqe, Error>)
        requires
            count * self.spec_block_size() <= u32::MAX,
        ensures
            match spec_transfer_error(self.ring_state(), self.shm_state(), self.spec_block_size(), (count * self.spec_block_size()) as u32, true) {
                Some(e) => r == Err::<IoUringSqe, Error>(e),
                None => r is Ok && r->Ok_0.opcode == IOURING_OP_READ && r->Ok_0.flags == 0
                    && r->Ok_0.off == sector as u64
                    && r->Ok_0.addr == self.shm_state()->0.client_vaddr as u64
                    && r->Ok_0.len == count * self.spec_block_size(),
            },
    {
        let len = self.blocks_len(count);
        self.prepare_read_at(sector, len)
    }

    /// The submission for writing `count` blocks at `sector`.
    pub fn prepare_write_blocks(&self, sector: usize, count: u32) -> (r: Result<IoUringSqe, Error>)
        requires
            count * self.spec_block_size() <= u32::MAX,
        ensures
            match spec_transfer_error(self.ring_state(), self.shm_state(), self.spec_block_size(), (count * self.spec_block_size()) as u32, true) {
                Some(e) => r == Err::<IoUringSqe, Error>(e),
                None => r is Ok && r->Ok_0.opcode == IOURING_OP_WRITE && r->Ok_0.flags == 0
                    && r->Ok_0.off == sector as u64
                    && r->Ok_0.addr == self.shm_state()->0.client_vaddr as u64
                    && r->Ok_0.len == count * self.spec_block_size(),
            },
    {
        let len = self.blocks_len(count);
        self.prepare_write_at(sector, len)
    }

    /// Request for the device of the process with badge `badge`, received
    /// in slot `recv`.
    pub fn get_device_request(&self, badge: Badge, recv: CapPtr) -> (u: Utcb)
        ensures
            is_request(u, VOLUME_PROTO, GET_DEVICE, 0, seq![badge.0], Seq::empty(), None, Some(recv)),
    {
        let mut u = Utcb::request(VOLUME_PROTO, GET_DEVICE, MsgFlags::none(), vec![badge.bits()]);
        u.set_recv_window(recv);
        u
    }

    /// The device endpoint, present only when the reply transferred a
    /// capability; `Generic` otherwise.
    pub fn endpoint_reply(reply: &Utcb, recv: CapPtr) -> (r: Result<Endpoint, Error>)
        ensures
            spec_contains(reply.tag.flags.bits, FLAG_HAS_CAP) ==> r == Ok::<Endpoint, Error>(Endpoint(recv)),
            !spec_contains(reply.tag.flags.bits, FLAG_HAS_CAP) ==> r == Err::<Endpoint, Error>(Error::Generic),
    {
        if !reply.get_msg_tag().flags().contains(MsgFlags::has_cap()) {
            return Err(Error::Generic);
        }
        Ok(Endpoint::from(recv))
    }

    /// Request to probe the device `device_name`.
    pub fn probe_device_request(&self, _pid: Badge, device_name: &str) -> (r: Result<Utcb, Error>)
        ensures
            r is Err <==> device_name.spec_bytes().len() > IPC_BUFFER_SIZE,
            r is Err ==> r == Err::<Utcb, Error>(Error::MessageTooLong),
            r is Ok ==> is_request(r->Ok_0, VOLUME_PROTO, PROBE_DEVICE, FLAG_HAS_BUFFER, Seq::empty(), device_name.spec_bytes(), None, None),
    {
        let mut u = Utcb::request(VOLUME_PROTO, PROBE_DEVICE, MsgFlags::has_buffer(), vec![]);
        match u.write_str(device_name) {
            Ok(()) => Ok(u),
            Err(e) => Err(e),
        }
    }

    /// Request reporting the service state, handing over `endpoint` when
    /// given.
    pub fn report_state_request(&self, _pid: Badge, state: ServiceState, endpoint: Option<CapPtr>) -> (u: Utcb)
        ensures
            is_request(u, VOLUME_PROTO, REPORT_STATE, if endpoint is Some { FLAG_HAS_CAP } else { 0 }, seq![state.0], Seq::empty(), endpoint, None),
    {
        match endpoint {
            Some(ep) => {
                let mut u = Utcb::request(VOLUME_PROTO, REPORT_STATE, MsgFlags::has_cap(), vec![state.0]);
                u.set_cap_transfer(ep);
                u
            },
            None => Utcb::request(VOLUME_PROTO, REPORT_STATE, MsgFlags::none(), vec![state.0]),
        }
    }

    /// Request to mount the partition `partition_name`, its endpoint to be
    /// received in slot `recv`.
    pub fn mount_partition_request(&self, _pid: Badge, partition_name: &str, recv: CapPtr) -> (r: Result<Utcb, Error>)
        ensures
            r is Err <==> partition_name.spec_bytes().len() > IPC_BUFFER_SIZE,
            r is Err ==> r == Err::<Utcb, Error>(Error::MessageTooLong),
            r is Ok ==> is_request(r->Ok_0, VOLUME_PROTO, MOUNT_PARTITION, FLAG_HAS_BUFFER, Seq::empty(), partition_name.spec_bytes(), None, Some(recv)),
    {
        let mut u = Utcb::request(VOLUME_PROTO, MOUNT_PARTITION, MsgFlags::has_buffer(), vec![]);
        match u.write_str(partition_name) {
            Ok(()) => {
                u.set_recv_window(recv);
                Ok(u)
            },
            Err(e) => Err(e),
        }
    }
}

/// Which transfers the volume client accepts: with a ring, a shared buffer
/// and a known block size dividing the length, every transfer that fits the
/// shared buffer (its length at most the buffer's size) is accepted and
/// every longer one is refused with `InvalidArgs`; without a ring or a
/// shared buffer nothing is accepted, and a length that is not a whole
/// number of blocks is refused with `InvalidArgs`.
pub proof fn lemma_transfer_fits_buffer(
    ring: Option<IoUringClient>,
    shm: Option<SharedMemory>,
    block_size: u32,
    len: u32,
)
    ensures
        (ring is Some && shm is Some && block_size != 0 && len % block_size == 0 && len as int <= shm->0.size)
            ==> spec_transfer_error(ring, shm, block_size, len, true) is None,
        (ring is Some && shm is Some && block_size != 0 && len % block_size == 0 && len as int > shm->0.size)
            ==> spec_transfer_error(ring, shm, block_size, len, true) == Some(Error::InvalidArgs),
        (ring is Some && shm is Some && block_size != 0 && len % block_size == 0)
            ==> spec_transfer_error(ring, shm, block_size, len, false) is None,
        (ring is None || shm is None) ==> spec_transfer_error(ring, shm, block_size, len, true) == Some(Error::NotInitialized),
        (ring is Some && shm is Some && (block_size == 0 || len % block_size != 0))
            ==> spec_transfer_error(ring, shm, block_size, len, true) == Some(Error::InvalidArgs),
{
}

} // verus!
