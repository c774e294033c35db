//! Client of a PCI function.

use vstd::prelude::*;
use crate::cap::Endpoint;
use crate::ipc::{is_plain_request, MsgFlags, Utcb};
use crate::protocol::pci::{PciAddress, ENABLE_BUS_MASTER, ENABLE_MSI, READ_CONFIG, WRITE_CONFIG};
use crate::protocol::PCI_PROTO;

verus! {

/// Client of the PCI function at `address`.
pub struct PciClient {
    endpoint: Endpoint,
    address: PciAddress,
}

impl PciClient {
    /// The endpoint requests go to.
    pub closed spec fn ep(&self) -> Endpoint {
        self.endpoint
    }

    /// The endpoint requests go to.
    pub fn endpoint(&self) -> (e: Endpoint)
        ensures
            e == self.ep(),
    {
        self.endpoint
    }

    /// The function's address.
    pub closed spec fn addr(&self) -> PciAddress {
        self.address
    }

    /// A client of the function at `address`, served at `endpoint`.
    pub fn new(endpoint: Endpoint, address: PciAddress) -> (c: PciClient)
        ensures
            c.ep() == endpoint,
            c.addr() == address,
    {
        PciClient { endpoint, address }
    }

    /// Request reading `size` bytes of configuration space at `offset`.
    pub fn read_config_request(&self, offset: usize, size: usize) -> (u: Utcb)
        ensures
            is_plain_request(u, PCI_PROTO, READ_CONFIG, 0, seq![offset, size]),
    {
        Utcb::request(PCI_PROTO, READ_CONFIG, MsgFlags::none(), vec![offset, size])
    }

    /// The value read: register 0 cut to 32 bits.
    pub fn read_config_reply(reply: &Utcb) -> (v: u32)
        ensures
            v == reply.mr(0) as u32,
    {
        reply.get_mr(0) as u32
    }

    /// Request writing `value` as `size` bytes of configuration space at
    /// `offset`.
    pub fn write_config_request(&self, offset: usize, value: u32, size: usize) -> (u: Utcb)
        ensures
            is_plain_request(u, PCI_PROTO, WRITE_CONFIG, 0, seq![offset, value as usize, size]),
    {
        Utcb::request(PCI_PROTO, WRITE_CONFIG, MsgFlags::none(), vec![offset, value as usize, size])
    }

    /// Request enabling bus mastering.
    pub fn enable_bus_master_request(&self) -> (u: Utcb)
        ensures
            is_plain_request(u, PCI_PROTO, ENABLE_BUS_MASTER, 0, Seq::empty()),
    {
        Utcb::request(PCI_PROTO, ENABLE_BUS_MASTER, MsgFlags::none(), vec![])
    }

    /// Request enabling message-signalled interrupts on `vector`, aimed at
    /// `dest_id`.
    pub fn enable_msi_request(&self, vector: u8, dest_id: u32) -> (u: Utcb)
        ensures
            is_plain_request(u, PCI_PROTO, ENABLE_MSI, 0, seq![vector as usize, dest_id as usize]),
    {
        Utcb::request(PCI_PROTO, ENABLE_MSI, MsgFlags::none(), vec![vector as usize, dest_id as usize])
    }

    /// The function's address.
    pub fn get_address(&self) -> (a: PciAddress)
        ensures
            a == self.addr(),
    {
        self.address
    }
}

} // verus!
