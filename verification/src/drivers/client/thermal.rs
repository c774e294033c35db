use vstd::prelude::*;
use crate::cap::Endpoint;
use crate::error::Error;
use crate::ipc::{is_plain_request, MsgFlags, Utcb};
use crate::protocol::thermal::GET_TEMPERATURE;
use crate::protocol::THERMAL_PROTO;

verus! {

/// Client of a thermal driver.
pub struct ThermalClient {
    endpoint: Endpoint,
}

impl ThermalClient {
    /// The endpoint requests go to.
    pub closed spec fn ep(&self) -> Endpoint {
        self.endpoint
    }

    /// The endpoint requests go to.
    pub fn endpoint(&self) -> (e: Endpoint)
        ensures
            e == self.ep(),
    {
        self.endpoint
    }

    /// A client of the driver at `endpoint`.
    pub fn new(endpoint: Endpoint) -> (c: ThermalClient)
        ensures
            c.ep() == endpoint,
    {
        ThermalClient { endpoint }
    }

    /// Connecting has nothing to set up.
    pub fn connect(&mut self) -> (r: Result<(), Error>)
        ensures
            r is Ok,
            *final(self) == *old(self),
    {
        Ok(())
    }

    /// Disconnecting has nothing to release.
    pub fn disconnect(&mut self) -> (r: Result<(), Error>)
        ensures
            r is Ok,
            *final(self) == *old(self),
    {
        Ok(())
    }

    /// Request for the temperature of `zone`.
    pub fn get_temperature_request(&self, zone: u32) -> (u: Utcb)
        ensures
            is_plain_request(u, THERMAL_PROTO, GET_TEMPERATURE, 0, seq![zone as usize]),
    {
        Utcb::request(THERMAL_PROTO, GET_TEMPERATURE, MsgFlags::none(), vec![zone as usize])
    }

    /// The temperature: register 0 cut to 32 bits.
    pub fn get_temperature_reply(reply: &Utcb) -> (t: u32)
        ensures
            t == reply.mr(0) as u32,
    {
        reply.get_mr(0) as u32
    }
}

} // verus!
