use vstd::prelude::*;
use crate::cap::Endpoint;
use crate::error::Error;
use crate::ipc::{is_plain_request, MsgFlags, Utcb};
use crate::protocol::timer::{GET_TIME, SET_ALARM, STOP_ALARM};
use crate::protocol::TIMER_PROTO;

verus! {

/// Client of a timer driver.
pub struct TimerClient(pub Endpoint);

/// The 64-bit time two registers carry: high word over low word.
pub open spec fn spec_join_time(low: usize, high: usize) -> u64 {
    ((high as u64) << 32u64) | (low as u64)
}

/// The (low, high) register pair a 64-bit timestamp is sent as.
pub open spec fn spec_split_time(t: u64) -> (usize, usize) {
    ((t & 0xFFFF_FFFF) as usize, (t >> 32u64) as usize)
}

impl TimerClient {
    /// A client of the driver at `endpoint`.
    pub fn new(endpoint: Endpoint) -> (c: TimerClient)
        ensures
            c.0 == endpoint,
    {
        TimerClient(endpoint)
    }

    /// Request for the current time.
    pub fn get_time_request(&self) -> (u: Utcb)
        ensures
            is_plain_request(u, TIMER_PROTO, GET_TIME, 0, Seq::empty()),
    {
        Utcb::request(TIMER_PROTO, GET_TIME, MsgFlags::none(), vec![])
    }

    /// The time: high word in register 1, low word in register 0, when the
    /// call succeeded; 0 when it failed.
    pub fn get_time_reply(call: Result<(), Error>, reply: &Utcb) -> (t: u64)
        ensures
            t == if call is Ok { spec_join_time(reply.mr(0), reply.mr(1)) } else { 0 },
    {
        match call {
            Ok(()) => {
                let low = reply.get_mr(0) as u64;
                let high = reply.get_mr(1) as u64;
                (high << 32u64) | low
            },
            Err(_) => 0,
        }
    }

    /// Request to raise an alarm at `timestamp`, sent as low and high word.
    pub fn set_alarm_request(&self, timestamp: u64) -> (u: Utcb)
        ensures
            is_plain_request(u, TIMER_PROTO, SET_ALARM, 0, seq![spec_split_time(timestamp).0, spec_split_time(timestamp).1]),
    {
        Utcb::request(TIMER_PROTO, SET_ALARM, MsgFlags::none(), vec![(timestamp & 0xFFFF_FFFF) as usize, (timestamp >> 32u64) as usize])
    }

    /// Request to cancel the alarm.
    pub fn stop_alarm_request(&self) -> (u: Utcb)
        ensures
            is_plain_request(u, TIMER_PROTO, STOP_ALARM, 0, Seq::empty()),
    {
        Utcb::request(TIMER_PROTO, STOP_ALARM, MsgFlags::none(), vec![])
    }
}

/// A timestamp sent as an alarm and read back as a time is unchanged.
pub proof fn lemma_time_round_trip(t: u64)
    ensures
        spec_join_time(spec_split_time(t).0, spec_split_time(t).1) == t,
{
    assert(((((t >> 32u64) as usize) as u64) << 32u64) | (((t & 0xFFFF_FFFF) as usize) as u64) == t) by (bit_vector);
}

} // verus!
