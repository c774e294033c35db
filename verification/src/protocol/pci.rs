//! PCI device protocol: operation labels and the function address.

use vstd::prelude::*;

verus! {

pub const READ_CONFIG: usize = 1;
pub const WRITE_CONFIG: usize = 2;
pub const ENABLE_BUS_MASTER: usize = 3;
pub const ENABLE_MSI: usize = 4;

/// Address of a PCI function.
#[derive(Debug, Clone, Copy, PartialEq, Eq, Structural)]
pub struct PciAddress {
    pub bus: u8,
    pub device: u8,
    pub function: u8,
}

} // verus!
