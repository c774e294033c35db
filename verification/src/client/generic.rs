use vstd::prelude::*;
use crate::cap::{CapPtr, Endpoint};
use crate::error::Error;
use crate::ipc::{is_plain_request, is_request, MsgFlags, Utcb, IPC_BUFFER_SIZE};
use crate::protocol::generic::{NOTIFY, PING, SEND_MESSAGE, SHARE_MEMORY};
use crate::protocol::GENERIC_PROTO;
use vstd::string::StringSliceAdditionalSpecFns;

verus! {

/// Client of a service that speaks the generic protocol.
pub struct GeneralClient {
    endpoint: Endpoint,
}

impl GeneralClient {
    /// The endpoint requests go to.
    pub closed spec fn ep(&self) -> Endpoint {
        self.endpoint
    }

    /// The endpoint requests go to.
    pub fn endpoint(&self) -> (e: Endpoint)
        ensures
            e == self.ep(),
    {
        self.endpoint
    }

    /// A client of the service at `endpoint`.
    pub fn new(endpoint: Endpoint) -> (c: GeneralClient)
        ensures
            c.ep() == endpoint,
    {
        GeneralClient { endpoint }
    }

    /// Request that echoes `value`.
    pub fn ping_request(&self, value: usize) -> (u: Utcb)
        ensures
            is_plain_request(u, GENERIC_PROTO, PING, 0, seq![value]),
    {
        Utcb::request(GENERIC_PROTO, PING, MsgFlags::none(), vec![value])
    }

    /// Request that shares the memory capability in slot `cap`.
    pub fn share_memory_request(&self, cap: CapPtr) -> (u: Utcb)
        ensures
            is_request(u, GENERIC_PROTO, SHARE_MEMORY, 0, Seq::empty(), Seq::empty(), Some(cap), None),
    {
        let mut u = Utcb::request(GENERIC_PROTO, SHARE_MEMORY, MsgFlags::none(), vec![]);
        u.set_cap_transfer(cap);
        u
    }

    /// Request carrying a text message.
    pub fn send_message_request(&self, message: &str) -> (r: Result<Utcb, Error>)
        ensures
            message.spec_bytes().len() > IPC_BUFFER_SIZE ==> r == Err::<Utcb, Error>(Error::MessageTooLong),
            message.spec_bytes().len() <= IPC_BUFFER_SIZE ==> r is Ok && is_request(r->Ok_0, GENERIC_PROTO, SEND_MESSAGE, 0, Seq::empty(), message.spec_bytes(), None, None),
    {
        Utcb::request_with_str(GENERIC_PROTO, SEND_MESSAGE, MsgFlags::none(), vec![], message)
    }

    /// The notification message.
    pub fn notify_request(&self) -> (u: Utcb)
        ensures
            is_plain_request(u, GENERIC_PROTO, NOTIFY, 0, Seq::empty()),
    {
        Utcb::request(GENERIC_PROTO, NOTIFY, MsgFlags::none(), vec![])
    }
}

} // verus!
