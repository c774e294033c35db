use vstd::prelude::*;
use crate::cap::{CapPtr, Frame};

verus! {

/// What a client proposes when it sets up a shared buffer.
#[derive(Debug, Clone, Copy, PartialEq, Eq, Structural)]
pub struct ShmParams {
    pub frame: Frame,
    pub vaddr: usize,
    pub paddr: usize,
    pub size: usize,
    pub recv_slot: CapPtr,
}

impl ShmParams {
    /// Parameters that share nothing.
    pub open spec fn spec_empty() -> ShmParams {
        ShmParams { frame: Frame(CapPtr(0)), vaddr: 0, paddr: 0, size: 0, recv_slot: CapPtr(0) }
    }

    /// Parameters that share nothing: null frame and slot, no memory.
    pub fn empty() -> (p: ShmParams)
        ensures
            p == ShmParams::spec_empty(),
    {
        ShmParams { frame: Frame(CapPtr(0)), vaddr: 0, paddr: 0, size: 0, recv_slot: CapPtr(0) }
    }
}

/// A region of memory shared with a server: the frame, where it is mapped
/// here, its size, the address the server knows it by, and its physical
/// address when known.
#[derive(Debug, Clone, Copy, PartialEq, Eq, Structural)]
pub struct SharedMemory {
    pub frame: Frame,
    pub vaddr: usize,
    pub size: usize,
    pub client_vaddr: usize,
    pub paddr: usize,
}

impl SharedMemory {
    /// The region of `size` bytes of `frame` mapped at `vaddr`.
    pub fn new(frame: Frame, vaddr: usize, size: usize) -> (s: SharedMemory)
        ensures
            s == (SharedMemory { frame, vaddr, size, client_vaddr: vaddr, paddr: 0 }),
    {
        SharedMemory { frame, vaddr, size, client_vaddr: vaddr, paddr: 0 }
    }

    /// Records the address the server knows the region by.
    pub fn set_client_vaddr(&mut self, vaddr: usize)
        ensures
            *final(self) == (SharedMemory { client_vaddr: vaddr, ..*old(self) }),
    {
        self.client_vaddr = vaddr;
    }

    /// Records the physical address of the region.
    pub fn set_paddr(&mut self, paddr: usize)
        ensures
            *final(self) == (SharedMemory { paddr, ..*old(self) }),
    {
        self.paddr = paddr;
    }

    /// Size of the region in bytes.
    pub fn size(&self) -> (n: usize)
        ensures
            n == self.size,
    {
        self.size
    }

    /// Where the region is mapped here.
    pub fn vaddr(&self) -> (v: usize)
        ensures
            v == self.vaddr,
    {
        self.vaddr
    }

    /// The address the server knows the region by.
    pub fn client_vaddr(&self) -> (v: usize)
        ensures
            v == self.client_vaddr,
    {
        self.client_vaddr
    }
}

} // verus!
