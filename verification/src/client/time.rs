use vstd::prelude::*;
use crate::cap::{Badge, Endpoint};
use crate::ipc::{is_plain_request, MsgFlags, Utcb};
use crate::protocol::time::{ADJ_TIME, MONO_NOW, SLEEP, TIME_NOW};
use crate::protocol::TIME_PROTO;

verus! {

/// Client of the time service.
pub struct TimeClient(pub Endpoint);

impl TimeClient {
    /// A client of the service at `endpoint`.
    pub fn new(endpoint: Endpoint) -> (c: TimeClient)
        ensures
            c.0 == endpoint,
    {
        TimeClient(endpoint)
    }

    /// Request for the wall-clock time.
    pub fn time_now_request(&self, _badge: Badge) -> (u: Utcb)
        ensures
            is_plain_request(u, TIME_PROTO, TIME_NOW, 0, Seq::empty()),
    {
        Utcb::request(TIME_PROTO, TIME_NOW, MsgFlags::none(), vec![])
    }

    /// Request for the monotonic time.
    pub fn mono_now_request(&self, _badge: Badge) -> (u: Utcb)
        ensures
            is_plain_request(u, TIME_PROTO, MONO_NOW, 0, Seq::empty()),
    {
        Utcb::request(TIME_PROTO, MONO_NOW, MsgFlags::none(), vec![])
    }

    /// A time reply: register 0 as a 64-bit value.
    pub fn time_reply(reply: &Utcb) -> (t: u64)
        ensures
            t == reply.mr(0) as u64,
    {
        reply.get_mr(0) as u64
    }

    /// Request to sleep `ms` milliseconds.
    pub fn sleep_request(&self, _badge: Badge, ms: usize) -> (u: Utcb)
        ensures
            is_plain_request(u, TIME_PROTO, SLEEP, 0, seq![ms]),
    {
        Utcb::request(TIME_PROTO, SLEEP, MsgFlags::none(), vec![ms])
    }

    /// Request to set the clock to `absolute_ns` with drift `drift_ppb`;
    /// both travel as their register bit patterns.
    pub fn adj_time_request(&self, _badge: Badge, absolute_ns: u64, drift_ppb: i64) -> (u: Utcb)
        ensures
            is_plain_request(u, TIME_PROTO, ADJ_TIME, 0, seq![absolute_ns as usize, drift_ppb as usize]),
    {
        Utcb::request(TIME_PROTO, ADJ_TIME, MsgFlags::none(), vec![absolute_ns as usize, drift_ppb as usize])
    }
}

} // verus!
