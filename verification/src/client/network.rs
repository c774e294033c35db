use vstd::prelude::*;
use crate::bytes::copy_prefix;
use crate::cap::{Endpoint, Page};
use crate::error::Error;
use crate::ipc::{is_plain_request, is_request, spec_buffer_bytes, MsgFlags, Utcb, FLAG_HAS_CAP, IPC_BUFFER_SIZE};
use crate::protocol::network::{
    ACCEPT, BIND, CLOSE, CONNECT, GET_PEERNAME, GET_SOCKNAME, GET_SOCKOPT, LISTEN,
    PROCESS_IOURING, RECV, SEND, SETUP_IOURING, SET_SOCKOPT, SOCKET,
};
use crate::protocol::NETWORK_PROTO;
use crate::uring::{IoUringClient, IoUringSqe, IOURING_OP_READ, IOURING_OP_WRITE};

verus! {

/// Client of the network service; one client stands for one socket.
pub struct NetworkClient {
    endpoint: Endpoint,
    uring: Option<IoUringClient>,
}

/// The first `n` bytes of `data` when they fit, `data` cut to the IPC
/// buffer otherwise.
pub open spec fn spec_sent(data: Seq<u8>) -> Seq<u8> {
    data.subrange(0, if data.len() < IPC_BUFFER_SIZE { data.len() as int } else { IPC_BUFFER_SIZE as int })
}

impl NetworkClient {
    pub closed spec fn ep(&self) -> Endpoint { self.endpoint }

    /// The endpoint requests go to.
    pub fn endpoint(&self) -> (e: Endpoint)
        ensures
            e == self.ep(),
    {
        self.endpoint
    }
    pub closed spec fn uring_state(&self) -> Option<IoUringClient> { self.uring }

    /// A client of the service at `endpoint`, without a ring.
    pub fn new(endpoint: Endpoint) -> (c: NetworkClient)
        ensures
            c.ep() == endpoint,
            c.uring_state() is None,
    {
        NetworkClient { endpoint, uring: None }
    }

    /// Installs a submission ring.
    pub fn setup_uring(&mut self, uring: IoUringClient)
        ensures
            final(self).uring_state() == Some(uring),
            final(self).ep() == old(self).ep(),
    {
        self.uring = Some(uring);
    }

    /// The submission ring, once installed.
    pub fn uring(&self) -> (r: Option<&IoUringClient>)
        ensures
            match r {
                Some(x) => self.uring_state() == Some(*x),
                None => self.uring_state() is None,
            },
    {
        self.uring.as_ref()
    }

    /// The submission for reading `len` bytes into `addr`; `InvalidArgs`
    /// without a ring.
    pub fn read_uring(&self, addr: usize, len: u32, user_data: usize) -> (r: Result<IoUringSqe, Error>)
        ensures
            self.uring_state() is None ==> r == Err::<IoUringSqe, Error>(Error::InvalidArgs),
            self.uring_state() is Some ==> r == Ok::<IoUringSqe, Error>(IoUringSqe {
                opcode: IOURING_OP_READ,
                flags: 0,
                off: 0,
                addr: addr as u64,
                len,
                user_data: user_data as u64,
            }),
    {
        if self.uring.is_none() {
            return Err(Error::InvalidArgs);
        }
        Ok(IoUringSqe { opcode: IOURING_OP_READ, flags: 0, off: 0, addr: addr as u64, len, user_data: user_data as u64 })
    }

    /// The submission for writing `len` bytes from `addr`; `InvalidArgs`
    /// without a ring.
    pub fn write_uring(&self, addr: usize, len: u32, user_data: usize) -> (r: Result<IoUringSqe, Error>)
        ensures
            self.uring_state() is None ==> r == Err::<IoUringSqe, Error>(Error::InvalidArgs),
            self.uring_state() is Some ==> r == Ok::<IoUringSqe, Error>(IoUringSqe {
                opcode: IOURING_OP_WRITE,
                flags: 0,
                off: 0,
                addr: addr as u64,
                len,
                user_data: user_data as u64,
            }),
    {
        if self.uring.is_none() {
            return Err(Error::InvalidArgs);
        }
        Ok(IoUringSqe { opcode: IOURING_OP_WRITE, flags: 0, off: 0, addr: addr as u64, len, user_data: user_data as u64 })
    }

    /// Request to open a socket; the signed arguments travel as their
    /// register bit patterns.
    pub fn socket_request(&self, domain: i32, socket_type: i32, protocol: i32) -> (u: Utcb)
        ensures
            is_plain_request(u, NETWORK_PROTO, SOCKET, 0, seq![domain as usize, socket_type as usize, protocol as usize]),
    {
        Utcb::request(NETWORK_PROTO, SOCKET, MsgFlags::none(), vec![domain as usize, socket_type as usize, protocol as usize])
    }

    /// Request to bind to `address` (sent as far as it fits).
    pub fn bind_request(&self, address: &[u8]) -> (u: Utcb)
        ensures
            is_request(u, NETWORK_PROTO, BIND, 0, Seq::empty(), spec_sent(address@), None, None),
    {
        let mut u = Utcb::request(NETWORK_PROTO, BIND, MsgFlags::none(), vec![]);
        u.write(address);
        u
    }

    /// Request to listen with a backlog of `backlog`.
    pub fn listen_request(&self, backlog: i32) -> (u: Utcb)
        ensures
            is_plain_request(u, NETWORK_PROTO, LISTEN, 0, seq![backlog as usize]),
    {
        Utcb::request(NETWORK_PROTO, LISTEN, MsgFlags::none(), vec![backlog as usize])
    }

    /// Request to accept a connection.
    pub fn accept_request(&self) -> (u: Utcb)
        ensures
            is_plain_request(u, NETWORK_PROTO, ACCEPT, 0, Seq::empty()),
    {
        Utcb::request(NETWORK_PROTO, ACCEPT, MsgFlags::none(), vec![])
    }

    /// Request to connect to `address` (sent as far as it fits).
    pub fn connect_request(&self, address: &[u8]) -> (u: Utcb)
        ensures
            is_request(u, NETWORK_PROTO, CONNECT, 0, Seq::empty(), spec_sent(address@), None, None),
    {
        let mut u = Utcb::request(NETWORK_PROTO, CONNECT, MsgFlags::none(), vec![]);
        u.write(address);
        u
    }

    /// Request to send `data`: as much as fits the IPC buffer, its length
    /// in register 0 and the flags in register 1.
    pub fn send_request(&self, data: &[u8], flags: i32) -> (u: Utcb)
        ensures
            is_request(u, NETWORK_PROTO, SEND, 0, seq![spec_sent(data@).len() as usize, flags as usize], spec_sent(data@), None, None),
    {
        let mut u = Utcb::request(NETWORK_PROTO, SEND, MsgFlags::none(), vec![]);
        let len = u.write(data);
        u.set_mr(0, len);
        u.set_mr(1, flags as usize);
        u
    }

    /// Request to receive up to `buf_len` bytes.
    pub fn recv_request(&self, buf_len: usize, flags: i32) -> (u: Utcb)
        ensures
            is_plain_request(u, NETWORK_PROTO, RECV, 0, seq![buf_len, flags as usize]),
    {
        Utcb::request(NETWORK_PROTO, RECV, MsgFlags::none(), vec![buf_len, flags as usize])
    }

    /// Copies the front of the reply's IPC buffer, as many bytes as
    /// register 0 says, to the front of `dst`; returns that count.
    pub fn copy_reply(reply: &Utcb, dst: &mut [u8]) -> (n: usize)
        requires
            reply.mr(0) <= old(dst)@.len(),
            reply.mr(0) <= IPC_BUFFER_SIZE,
        ensures
            n == reply.mr(0),
            final(dst)@ == spec_buffer_bytes(reply.buffer@, n as int) + old(dst)@.subrange(n as int, old(dst)@.len() as int),
    {
        let n = reply.get_mr(0);
        let bytes = reply.data(n);
        copy_prefix(dst, bytes.as_slice(), n);
        assert(bytes@.subrange(0, n as int) =~= bytes@);
        n
    }

    /// Request to close the socket.
    pub fn close_request(&self) -> (u: Utcb)
        ensures
            is_plain_request(u, NETWORK_PROTO, CLOSE, 0, Seq::empty()),
    {
        Utcb::request(NETWORK_PROTO, CLOSE, MsgFlags::none(), vec![])
    }

    /// Request for the socket's own address.
    pub fn get_sockname_request(&self) -> (u: Utcb)
        ensures
            is_plain_request(u, NETWORK_PROTO, GET_SOCKNAME, 0, Seq::empty()),
    {
        Utcb::request(NETWORK_PROTO, GET_SOCKNAME, MsgFlags::none(), vec![])
    }

    /// Request for the peer's address.
    pub fn get_peername_request(&self) -> (u: Utcb)
        ensures
            is_plain_request(u, NETWORK_PROTO, GET_PEERNAME, 0, Seq::empty()),
    {
        Utcb::request(NETWORK_PROTO, GET_PEERNAME, MsgFlags::none(), vec![])
    }

    /// Request to set an option to `optval` (sent as far as it fits).
    pub fn setsockopt_request(&self, level: i32, optname: i32, optval: &[u8]) -> (u: Utcb)
        ensures
            is_request(u, NETWORK_PROTO, SET_SOCKOPT, 0, seq![level as usize, optname as usize, optval@.len() as usize], spec_sent(optval@), None, None),
    {
        let mut u = Utcb::request(NETWORK_PROTO, SET_SOCKOPT, MsgFlags::none(), vec![level as usize, optname as usize, optval.len()]);
        u.write(optval);
        u
    }

    /// Request for an option, up to `optval_len` bytes.
    pub fn getsockopt_request(&self, level: i32, optname: i32, optval_len: usize) -> (u: Utcb)
        ensures
            is_plain_request(u, NETWORK_PROTO, GET_SOCKOPT, 0, seq![level as usize, optname as usize, optval_len]),
    {
        Utcb::request(NETWORK_PROTO, GET_SOCKOPT, MsgFlags::none(), vec![level as usize, optname as usize, optval_len])
    }

    /// Request to set up a ring of `size` bytes at `client_vaddr`, handing
    /// over `frame` when given.
    pub fn setup_iouring_request(&self, client_vaddr: usize, size: usize, frame: Option<Page>) -> (u: Utcb)
        ensures
            is_request(u, NETWORK_PROTO, SETUP_IOURING, if frame is Some { FLAG_HAS_CAP } else { 0 }, seq![client_vaddr, size], Seq::empty(),
                match frame { Some(f) => Some(f.0), None => None }, None),
    {
        match frame {
            Some(f) => {
                let mut u = Utcb::request(NETWORK_PROTO, SETUP_IOURING, MsgFlags::has_cap(), vec![client_vaddr, size]);
                u.set_cap_transfer(f.cap());
                u
            },
            None => Utcb::request(NETWORK_PROTO, SETUP_IOURING, MsgFlags::none(), vec![client_vaddr, size]),
        }
    }

    /// Request to process the submitted ring entries.
    pub fn process_iouring_request(&self) -> (u: Utcb)
        ensures
            is_plain_request(u, NETWORK_PROTO, PROCESS_IOURING, 0, Seq::empty()),
    {
        Utcb::request(NETWORK_PROTO, PROCESS_IOURING, MsgFlags::none(), vec![])
    }
}

} // verus!
