//! Client of an input device.

use vstd::prelude::*;
use crate::cap::Endpoint;
use crate::error::Error;
use crate::ipc::{is_plain_request, MsgFlags, Utcb};
use crate::protocol::input::{event_from_bytes, spec_event_from_bytes, InputEvent, INPUT_EVENT_SIZE, READ_EVENT};
use crate::protocol::INPUT_PROTO;

verus! {

/// Client of an input device.
pub struct InputClient {
    endpoint: Endpoint,
}

impl InputClient {
    /// The endpoint requests go to.
    pub closed spec fn ep(&self) -> Endpoint {
        self.endpoint
    }

    /// The endpoint requests go to.
    pub fn endpoint(&self) -> (e: Endpoint)
        ensures
            e == self.ep(),
    {
        self.endpoint
    }

    /// A client of the device at `endpoint`.
    pub fn new(endpoint: Endpoint) -> (c: InputClient)
        ensures
            c.ep() == endpoint,
    {
        InputClient { endpoint }
    }

    /// Request for the next event.
    pub fn poll_event_request(&self) -> (u: Utcb)
        ensures
            is_plain_request(u, INPUT_PROTO, READ_EVENT, 0, Seq::empty()),
    {
        Utcb::request(INPUT_PROTO, READ_EVENT, MsgFlags::none(), vec![])
    }

    /// The event read: decoded from the reply's buffer when the call
    /// succeeded and the buffer holds a whole event, none otherwise.
    pub fn poll_event_reply(call: Result<(), Error>, reply: &Utcb) -> (e: Option<InputEvent>)
        ensures
            e == if call is Ok && reply.buffer@.len() >= INPUT_EVENT_SIZE {
                Some(spec_event_from_bytes(reply.buffer@))
            } else {
                None::<InputEvent>
            },
    {
        if call.is_ok() && reply.buffer.len() >= INPUT_EVENT_SIZE {
            Some(event_from_bytes(reply.buffer.as_slice()))
        } else {
            None
        }
    }
}

} // verus!
