use vstd::prelude::*;
use crate::cap::{Badge, CNode, CapPtr, Endpoint};
use crate::error::Error;
use crate::ipc::{is_plain_request, is_request, MsgFlags, Utcb, FLAG_HAS_BUFFER, IPC_BUFFER_SIZE};
use crate::protocol::process::{CREATE, EXIT, GET_CNODE, KILL, SPAWN, THREAD_CREATE};
use crate::protocol::PROCESS_PROTO;
use vstd::string::StringSliceAdditionalSpecFns;

verus! {

/// Client of the process service.
pub struct ProcessClient {
    endpoint: Endpoint,
}

impl ProcessClient {
    /// The endpoint requests go to.
    pub closed spec fn ep(&self) -> Endpoint {
        self.endpoint
    }

    /// The endpoint requests go to.
    pub fn endpoint(&self) -> (e: Endpoint)
        ensures
            e == self.ep(),
    {
        self.endpoint
    }

    /// A client of the service at `endpoint`.
    pub fn new(endpoint: Endpoint) -> (c: ProcessClient)
        ensures
            c.ep() == endpoint,
    {
        ProcessClient { endpoint }
    }

    /// Request to spawn the program `name`.
    pub fn spawn_request(&self, _pid: Badge, name: &str) -> (r: Result<Utcb, Error>)
        ensures
            name.spec_bytes().len() > IPC_BUFFER_SIZE ==> r == Err::<Utcb, Error>(Error::MessageTooLong),
            name.spec_bytes().len() <= IPC_BUFFER_SIZE ==> r is Ok && is_request(r->Ok_0, PROCESS_PROTO, SPAWN, FLAG_HAS_BUFFER, Seq::empty(), name.spec_bytes(), None, None),
    {
        Utcb::request_with_str(PROCESS_PROTO, SPAWN, MsgFlags::has_buffer(), vec![], name)
    }

    /// Request to create, without starting, the program `name`.
    pub fn create_request(&self, _pid: Badge, name: &str) -> (r: Result<Utcb, Error>)
        ensures
            name.spec_bytes().len() > IPC_BUFFER_SIZE ==> r == Err::<Utcb, Error>(Error::MessageTooLong),
            name.spec_bytes().len() <= IPC_BUFFER_SIZE ==> r is Ok && is_request(r->Ok_0, PROCESS_PROTO, CREATE, FLAG_HAS_BUFFER, Seq::empty(), name.spec_bytes(), None, None),
    {
        Utcb::request_with_str(PROCESS_PROTO, CREATE, MsgFlags::has_buffer(), vec![], name)
    }

    /// The message announcing the caller's exit with `code` (sent, not
    /// called).
    pub fn exit_request(&self, _pid: Badge, code: usize) -> (u: Utcb)
        ensures
            is_plain_request(u, PROCESS_PROTO, EXIT, 0, seq![code]),
    {
        Utcb::request(PROCESS_PROTO, EXIT, MsgFlags::none(), vec![code])
    }

    /// Request to kill process `target`.
    pub fn kill_request(&self, _pid: Badge, target: usize) -> (u: Utcb)
        ensures
            is_plain_request(u, PROCESS_PROTO, KILL, 0, seq![target]),
    {
        Utcb::request(PROCESS_PROTO, KILL, MsgFlags::none(), vec![target])
    }

    /// Request for the capability node of process `target`, received in
    /// slot `recv`.
    pub fn get_cnode_request(&self, _pid: Badge, target: usize, recv: CapPtr) -> (u: Utcb)
        ensures
            is_request(u, PROCESS_PROTO, GET_CNODE, 0, seq![target], Seq::empty(), None, Some(recv)),
    {
        let mut u = Utcb::request(PROCESS_PROTO, GET_CNODE, MsgFlags::none(), vec![target]);
        u.set_recv_window(recv);
        u
    }

    /// The received capability node.
    pub fn get_cnode_reply(recv: CapPtr) -> (n: CNode)
        ensures
            n == CNode(recv),
    {
        CNode::from(recv)
    }

    /// Request to create a thread at `entry` with argument `arg`, stack
    /// top `stack_top` and thread pointer `tls`.
    pub fn thread_create_request(&self, _pid: Badge, entry: usize, arg: usize, stack_top: usize, tls: usize) -> (u: Utcb)
        ensures
            is_plain_request(u, PROCESS_PROTO, THREAD_CREATE, 0, seq![entry, arg, stack_top, tls]),
    {
        Utcb::request(PROCESS_PROTO, THREAD_CREATE, MsgFlags::none(), vec![entry, arg, stack_top, tls])
    }
}

} // verus!
