use vstd::prelude::*;
use std::sync::Arc;
use core::sync::atomic::AtomicU64;
use core::sync::atomic::Ordering;
use crate::align::{page_count, spec_page_count};
use crate::cap::{CapPtr, Endpoint, Frame};
use crate::client::resource::ResourceClient;
use crate::client::volume::FrameMapping;
use crate::drivers::protocol::uart::{
    sqe_read, sqe_write, GET_CHAR, PUT_CHAR, PUT_STR, SETUP_BUFFER, SETUP_RING, SET_BAUD_RATE,
};
use crate::error::Error;
use crate::ipc::{
    is_plain_request, is_request, piece_requests, spec_piece, spec_piece_count, MsgFlags, Utcb,
    FLAG_HAS_CAP,
};
use crate::protocol::UART_PROTO;
use crate::shm::{SharedMemory, ShmParams};
use crate::uring::{IoUringClient, IoUringSqe, RingParams, IOURING_OP_READ, IOURING_OP_WRITE};
use vstd::string::StringSliceAdditionalSpecFns;

verus! {

/// Client of a UART driver, with a submission ring for asynchronous IO and
/// a shared data buffer.
#[derive(Clone)]
pub struct UartClient {
    endpoint: Endpoint,
    notify_ep: Option<Endpoint>,
    ring: Option<IoUringClient>,
    shm: Option<SharedMemory>,
    next_id: Arc<AtomicU64>,
    ring_params: RingParams,
    shm_params: ShmParams,
    res_client: ResourceClient,
}

impl UartClient {
    pub closed spec fn ep(&self) -> Endpoint { self.endpoint }
    pub closed spec fn notify(&self) -> Option<Endpoint> { self.notify_ep }
    pub closed spec fn ring_state(&self) -> Option<IoUringClient> { self.ring }
    pub closed spec fn shm_state(&self) -> Option<SharedMemory> { self.shm }
    pub closed spec fn ring_params_of(&self) -> RingParams { self.ring_params }
    pub closed spec fn shm_params_of(&self) -> ShmParams { self.shm_params }
    pub closed spec fn res(&self) -> ResourceClient { self.res_client }

    /// A client that is not connected yet; ids count from 0x1000.
    pub fn new(endpoint: Endpoint, res_client: &mut ResourceClient, ring_params: RingParams, shm_params: ShmParams) -> (c: UartClient)
        ensures
            c.ep() == endpoint,
            c.notify() is None,
            c.ring_state() is None,
            c.shm_state() is None,
            c.ring_params_of() == ring_params,
            c.shm_params_of() == shm_params,
            c.res() == *old(res_client),
            *final(res_client) == *old(res_client),
    {
        UartClient {
            endpoint,
            notify_ep: None,
            ring: None,
            shm: None,
            next_id: Arc::new(AtomicU64::new(0x1000)),
            ring_params,
            shm_params,
            res_client: *res_client,
        }
    }

    /// Disconnecting has nothing to release.
    pub fn disconnect(&mut self) -> (r: Result<(), Error>)
        ensures
            r is Ok,
            *final(self) == *old(self),
    {
        Ok(())
    }

    /// The driver's endpoint.
    pub fn endpoint(&self) -> (e: Endpoint)
        ensures
            e == self.ep(),
    {
        self.endpoint
    }

    /// Installs a shared buffer.
    pub fn set_shm(&mut self, shm: SharedMemory)
        ensures
            final(self).shm_state() == Some(shm),
            final(self).ring_state() == old(self).ring_state(),
            final(self).notify() == old(self).notify(),
            final(self).ep() == old(self).ep(),
            final(self).ring_params_of() == old(self).ring_params_of(),
            final(self).shm_params_of() == old(self).shm_params_of(),
            final(self).res() == old(self).res(),
    {
        self.shm = Some(shm);
    }

    /// Installs a submission ring that notifies this driver.
    pub fn set_ring(&mut self, ring: IoUringClient)
        ensures
            final(self).ring_state() == Some(IoUringClient { server_notify: Some(old(self).ep()), ..ring }),
            final(self).shm_state() == old(self).shm_state(),
            final(self).notify() == old(self).notify(),
            final(self).ep() == old(self).ep(),
            final(self).ring_params_of() == old(self).ring_params_of(),
            final(self).shm_params_of() == old(self).shm_params_of(),
            final(self).res() == old(self).res(),
    {
        let mut ring = ring;
        ring.set_server_notify(self.endpoint);
        self.ring = Some(ring);
    }

    /// The submission ring, once set up.
    pub fn ring(&self) -> (r: Option<&IoUringClient>)
        ensures
            match r {
                Some(x) => self.ring_state() == Some(*x),
                None => self.ring_state() is None,
            },
    {
        self.ring.as_ref()
    }

    /// A fresh request id, shared with every clone of this client.
    pub fn next_user_data(&self) -> u64 {
        self.next_id.fetch_add(1, Ordering::SeqCst)
    }

    /// First step of ring setup: records the notification endpoint and
    /// returns the request that hands it over and asks for the ring frame.
    pub fn begin_ring_setup(&mut self) -> (u: Utcb)
        ensures
            final(self).notify() == Some(old(self).ring_params_of().notify_ep),
            final(self).ring_state() == old(self).ring_state(),
            final(self).shm_state() == old(self).shm_state(),
            final(self).ep() == old(self).ep(),
            final(self).ring_params_of() == old(self).ring_params_of(),
            final(self).shm_params_of() == old(self).shm_params_of(),
            is_request(
                u,
                UART_PROTO,
                SETUP_RING,
                FLAG_HAS_CAP,
                seq![old(self).ring_params_of().sq_entries, old(self).ring_params_of().cq_entries],
                Seq::empty(),
                Some(old(self).ring_params_of().notify_ep.0),
                Some(old(self).ring_params_of().recv_slot),
            ),
            final(self).res() == old(self).res(),
    {
        let p = self.ring_params;
        self.notify_ep = Some(p.notify_ep);
        let mut u = Utcb::request(UART_PROTO, SETUP_RING, MsgFlags::has_cap(), vec![p.sq_entries, p.cq_entries]);
        u.set_recv_window(p.recv_slot);
        u.set_cap_transfer(p.notify_ep.cap());
        u
    }

    /// Second step of ring setup: the received ring frame, mapped over as
    /// many pages as the ring size needs.
    pub fn ring_mapping(&self) -> (m: FrameMapping)
        ensures
            m == (FrameMapping {
                frame: Frame(self.ring_params_of().recv_slot),
                vaddr: self.ring_params_of().vaddr,
                pages: spec_page_count(self.ring_params_of().size as int) as usize,
            }),
    {
        FrameMapping {
            frame: Frame::from(self.ring_params.recv_slot),
            vaddr: self.ring_params.vaddr,
            pages: page_count(self.ring_params.size),
        }
    }

    /// Last step of ring setup: the ring laid out in the mapped frame.
    pub fn complete_ring_setup(&mut self)
        ensures
            final(self).ring_state() == Some(IoUringClient {
                vaddr: old(self).ring_params_of().vaddr,
                size: old(self).ring_params_of().size,
                sq_entries: old(self).ring_params_of().sq_entries as u32,
                cq_entries: old(self).ring_params_of().cq_entries as u32,
                server_notify: None,
            }),
            final(self).shm_state() == old(self).shm_state(),
            final(self).notify() == old(self).notify(),
            final(self).ep() == old(self).ep(),
            final(self).ring_params_of() == old(self).ring_params_of(),
            final(self).shm_params_of() == old(self).shm_params_of(),
            final(self).res() == old(self).res(),
    {
        let p = self.ring_params;
        self.ring = Some(IoUringClient::new(p.vaddr, p.size, p.sq_entries as u32, p.cq_entries as u32));
    }

    /// Request that hands the configured buffer frame to the driver, with
    /// its address, size and physical address.
    pub fn shm_setup_request(&self) -> (u: Utcb)
        ensures
            is_request(
                u,
                UART_PROTO,
                SETUP_BUFFER,
                FLAG_HAS_CAP,
                seq![self.shm_params_of().vaddr, self.shm_params_of().size, self.shm_params_of().paddr],
                Seq::empty(),
                Some(self.shm_params_of().frame.0),
                None,
            ),
    {
        let p = self.shm_params;
        let mut u = Utcb::request(UART_PROTO, SETUP_BUFFER, MsgFlags::has_cap(), vec![p.vaddr, p.size, p.paddr]);
        u.set_cap_transfer(p.frame.cap());
        u
    }

    /// After the driver accepted the buffer: it becomes the shared buffer,
    /// with its physical address recorded.
    pub fn complete_shm_setup(&mut self)
        ensures
            final(self).shm_state() == Some(SharedMemory {
                frame: old(self).shm_params_of().frame,
                vaddr: old(self).shm_params_of().vaddr,
                size: old(self).shm_params_of().size,
                client_vaddr: old(self).shm_params_of().vaddr,
                paddr: old(self).shm_params_of().paddr,
            }),
            final(self).ring_state() == old(self).ring_state(),
            final(self).notify() == old(self).notify(),
            final(self).ep() == old(self).ep(),
            final(self).ring_params_of() == old(self).ring_params_of(),
            final(self).shm_params_of() == old(self).shm_params_of(),
            final(self).res() == old(self).res(),
    {
        let p = self.shm_params;
        let mut shm = SharedMemory::new(p.frame, p.vaddr, p.size);
        shm.set_paddr(p.paddr);
        self.set_shm(shm);
    }

    /// The submission for an asynchronous read of `len` bytes into `addr`;
    /// `NotInitialized` without a ring.
    pub fn read_async_sqe(&self, addr: u64, len: u32, user_data: u64) -> (r: Result<IoUringSqe, Error>)
        ensures
            self.ring_state() is None ==> r == Err::<IoUringSqe, Error>(Error::NotInitialized),
            self.ring_state() is Some ==> r == Ok::<IoUringSqe, Error>(IoUringSqe {
                opcode: IOURING_OP_READ,
                flags: 0,
                off: 0,
                addr: addr as usize as u64,
                len,
                user_data: user_data as usize as u64,
            }),
    {
        if self.ring.is_none() {
            return Err(Error::NotInitialized);
        }
        Ok(sqe_read(addr as usize, len, user_data as usize))
    }

    /// The submission for an asynchronous write of `len` bytes from `addr`;
    /// `NotInitialized` without a ring.
    pub fn write_async_sqe(&self, addr: u64, len: u32, user_data: u64) -> (r: Result<IoUringSqe, Error>)
        ensures
            self.ring_state() is None ==> r == Err::<IoUringSqe, Error>(Error::NotInitialized),
            self.ring_state() is Some ==> r == Ok::<IoUringSqe, Error>(IoUringSqe {
                opcode: IOURING_OP_WRITE,
                flags: 0,
                off: 0,
                addr: addr as usize as u64,
                len,
                user_data: user_data as usize as u64,
            }),
    {
        if self.ring.is_none() {
            return Err(Error::NotInitialized);
        }
        Ok(sqe_write(addr as usize, len, user_data as usize))
    }

    /// The endpoint to block on for completions: the notification endpoint
    /// once set up, the driver's endpoint before; `NotInitialized` without
    /// a ring.
    pub fn wait_endpoint(&self) -> (r: Result<Endpoint, Error>)
        ensures
            self.ring_state() is None ==> r == Err::<Endpoint, Error>(Error::NotInitialized),
            self.ring_state() is Some ==> r == Ok::<Endpoint, Error>(match self.notify() {
                Some(n) => n,
                None => self.ep(),
            }),
    {
        if self.ring.is_none() {
            return Err(Error::NotInitialized);
        }
        match self.notify_ep {
            Some(n) => Ok(n),
            None => Ok(self.endpoint),
        }
    }

    /// The buffer parameters this client was made with.
    pub fn shm_params(&self) -> (p: &ShmParams)
        ensures
            *p == self.shm_params_of(),
    {
        &self.shm_params
    }

    /// Request to write one character.
    pub fn put_char_request(&self, c: u8) -> (u: Utcb)
        ensures
            is_plain_request(u, UART_PROTO, PUT_CHAR, 0, seq![c as usize]),
    {
        Utcb::request(UART_PROTO, PUT_CHAR, MsgFlags::none(), vec![c as usize])
    }

    /// Request to read one character.
    pub fn get_char_request(&self) -> (u: Utcb)
        ensures
            is_plain_request(u, UART_PROTO, GET_CHAR, 0, Seq::empty()),
    {
        Utcb::request(UART_PROTO, GET_CHAR, MsgFlags::none(), vec![])
    }

    /// The character read: register 0 cut to a byte when the call
    /// succeeded, nothing when it failed.
    pub fn get_char_reply(call: Result<(), Error>, reply: &Utcb) -> (c: Option<u8>)
        ensures
            c == if call is Ok { Some(reply.mr(0) as u8) } else { None::<u8> },
    {
        match call {
            Ok(()) => Some(reply.get_mr(0) as u8),
            Err(_) => None,
        }
    }

    /// The requests that write `s`: one per IPC-buffer-sized piece.
    pub fn put_str_requests(&self, s: &str) -> (reqs: Vec<Utcb>)
        ensures
            reqs@.len() == spec_piece_count(s.spec_bytes()),
            forall|i: int| 0 <= i < reqs@.len() ==> is_request(#[trigger] reqs@[i], UART_PROTO, PUT_STR, 0, Seq::empty(), spec_piece(s.spec_bytes(), i), None, None),
    {
        piece_requests(UART_PROTO, PUT_STR, s.as_bytes())
    }

    /// Request to set the baud rate.
    pub fn set_baud_rate_request(&self, baud: u32) -> (u: Utcb)
        ensures
            is_plain_request(u, UART_PROTO, SET_BAUD_RATE, 0, seq![baud as usize]),
    {
        Utcb::request(UART_PROTO, SET_BAUD_RATE, MsgFlags::none(), vec![baud as usize])
    }
}

/// The buffer parameters a UART client is made with are those it has in
/// every later state: along a run of states in which each step keeps them
/// (as the contract of every method that changes the client says), each
/// state has the parameters of the first.
pub proof fn lemma_shm_params_fixed(run: Seq<UartClient>)
    requires
        forall|i: int| 0 <= i < run.len() - 1 ==> #[trigger] run[i].shm_params_of() == run[i + 1].shm_params_of(),
    ensures
        forall|i: int| 0 <= i < run.len() ==> #[trigger] run[i].shm_params_of() == run[0].shm_params_of(),
    decreases run.len(),
{
    if run.len() > 1 {
        let prefix = run.drop_last();
        assert forall|i: int| 0 <= i < prefix.len() - 1 implies #[trigger] prefix[i].shm_params_of() == prefix[i + 1].shm_params_of() by {
            assert(prefix[i] == run[i] && prefix[i + 1] == run[i + 1]);
            assert(run[i].shm_params_of() == run[i + 1].shm_params_of());
        }
        lemma_shm_params_fixed(prefix);
        assert forall|i: int| 0 <= i < run.len() implies #[trigger] run[i].shm_params_of() == run[0].shm_params_of() by {
            if i < run.len() - 1 {
                assert(prefix[i] == run[i]);
                assert(prefix[i].shm_params_of() == prefix[0].shm_params_of());
            } else {
                assert(run[i - 1].shm_params_of() == run[i].shm_params_of());
                assert(prefix[i - 1] == run[i - 1]);
                assert(prefix[i - 1].shm_params_of() == prefix[0].shm_params_of());
            }
        }
    }
}

} // verus!
