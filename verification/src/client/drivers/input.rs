use vstd::prelude::*;
use crate::cap::Endpoint;
use crate::ipc::{is_plain_request, MsgFlags, Utcb};
use crate::protocol::input::READ_EVENT;
use crate::protocol::DRIVER_INPUT_PROTO;

verus! {

/// Client of an input driver.
pub struct InputClient {
    endpoint: Endpoint,
}

impl InputClient {
    /// The endpoint requests go to.
    pub closed spec fn ep(&self) -> Endpoint {
        self.endpoint
    }

    /// The endpoint requests go to.
    pub fn endpoint(&self) -> (e: Endpoint)
        ensures
            e == self.ep(),
    {
        self.endpoint
    }

    /// A client of the driver at `endpoint`.
    pub fn new(endpoint: Endpoint) -> (c: InputClient)
        ensures
            c.ep() == endpoint,
    {
        InputClient { endpoint }
    }

    /// Request for the next input event.
    pub fn poll_event_request(&self) -> (u: Utcb)
        ensures
            is_plain_request(u, DRIVER_INPUT_PROTO, READ_EVENT, 0, Seq::empty()),
    {
        Utcb::request(DRIVER_INPUT_PROTO, READ_EVENT, MsgFlags::none(), vec![])
    }
}

} // verus!
