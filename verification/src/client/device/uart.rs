//! Client of a UART device.

use vstd::prelude::*;
use crate::cap::Endpoint;
use crate::error::Error;
use crate::ipc::{is_plain_request, is_request, piece_requests, spec_piece, spec_piece_count, MsgFlags, Utcb};
use crate::protocol::devuart::{GET_CHAR, PUT_STR};
use crate::protocol::DEV_UART_PROTO;
use vstd::string::StringSliceAdditionalSpecFns;

verus! {

/// Client of a UART device.
pub struct UartClient {
    endpoint: Endpoint,
}

impl UartClient {
    /// The endpoint requests go to.
    pub closed spec fn ep(&self) -> Endpoint {
        self.endpoint
    }

    /// The endpoint requests go to.
    pub fn endpoint(&self) -> (e: Endpoint)
        ensures
            e == self.ep(),
    {
        self.endpoint
    }

    /// A client of the device at `endpoint`.
    pub fn new(endpoint: Endpoint) -> (c: UartClient)
        ensures
            c.ep() == endpoint,
    {
        UartClient { endpoint }
    }

    /// Writing one character sends nothing: the device client has no
    /// single-character operation, so the client is left as it was.
    pub fn put_char(&mut self, _c: u8)
        ensures
            *final(self) == *old(self),
    {
    }

    /// Request for one character.
    pub fn get_char_request(&self) -> (u: Utcb)
        ensures
            is_plain_request(u, DEV_UART_PROTO, GET_CHAR, 0, Seq::empty()),
    {
        Utcb::request(DEV_UART_PROTO, GET_CHAR, MsgFlags::none(), vec![])
    }

    /// The character read: the low byte of register 0 when the call
    /// succeeded, none when it failed.
    pub fn get_char_reply(call: Result<(), Error>, reply: &Utcb) -> (c: Option<u8>)
        ensures
            c == if call is Ok { Some(reply.mr(0) as u8) } else { None::<u8> },
    {
        match call {
            Ok(()) => Some(reply.get_mr(0) as u8),
            Err(_) => None,
        }
    }

    /// The requests writing `s`: its bytes cut into pieces of the IPC
    /// buffer's size, one request per piece, in order.
    pub fn put_str_requests(&self, s: &str) -> (reqs: Vec<Utcb>)
        ensures
            reqs@.len() == spec_piece_count(s.spec_bytes()),
            forall|i: int| 0 <= i < reqs@.len() ==>
                is_request(#[trigger] reqs@[i], DEV_UART_PROTO, PUT_STR, 0, Seq::empty(), spec_piece(s.spec_bytes(), i), None, None),
    {
        piece_requests(DEV_UART_PROTO, PUT_STR, s.as_bytes())
    }
}

} // verus!
