//! Network device protocol: operation labels and the hardware address.

use vstd::prelude::*;

verus! {

pub const GET_MAC: usize = 1;
pub const SEND: usize = 2;
pub const RECV: usize = 3;

/// Bytes of a hardware address.
pub const MAC_LEN: usize = 6;

/// A hardware address.
#[derive(Debug, Clone, Copy)]
pub struct MacAddress(pub [u8; 6]);

impl Default for MacAddress {
    fn default() -> (m: MacAddress)
        ensures
            m.0@ == seq![0u8, 0u8, 0u8, 0u8, 0u8, 0u8],
    {
        MacAddress([0u8; 6])
    }
}

/// The address made of the first six bytes of `b`.
pub fn mac_from_bytes(b: &[u8]) -> (m: MacAddress)
    requires
        b@.len() >= MAC_LEN,
    ensures
        m.0@ == b@.subrange(0, MAC_LEN as int),
{
    let m = MacAddress([b[0], b[1], b[2], b[3], b[4], b[5]]);
    assert(m.0@ =~= b@.subrange(0, MAC_LEN as int));
    m
}

} // verus!
