use vstd::prelude::*;

verus! {

/// A slot address in the caller's capability space.
#[derive(Debug, Clone, Copy, PartialEq, Eq, Structural)]
pub struct CapPtr(pub usize);

impl CapPtr {
    /// The empty slot address.
    pub fn null() -> (c: CapPtr)
        ensures
            c.0 == 0,
    {
        CapPtr(0)
    }

    /// The slot at the given address.
    pub fn from(bits: usize) -> (c: CapPtr)
        ensures
            c.0 == bits,
    {
        CapPtr(bits)
    }

    /// The raw slot address.
    pub fn bits(&self) -> (b: usize)
        ensures
            b == self.0,
    {
        self.0
    }

    /// True for the empty slot address.
    pub fn is_null(&self) -> (b: bool)
        ensures
            b == (self.0 == 0),
    {
        self.0 == 0
    }
}

/// A badge attached to a capability; identifies the caller to a server.
#[derive(Debug, Clone, Copy, PartialEq, Eq, Structural)]
pub struct Badge(pub usize);

impl Badge {
    /// The badge that identifies nobody.
    pub fn null() -> (b: Badge)
        ensures
            b.0 == 0,
    {
        Badge(0)
    }

    /// The raw badge value.
    pub fn bits(&self) -> (b: usize)
        ensures
            b == self.0,
    {
        self.0
    }
}

/// An IPC endpoint capability.
#[derive(Debug, Clone, Copy, PartialEq, Eq, Structural)]
pub struct Endpoint(pub CapPtr);

impl Endpoint {
    /// The endpoint held in the given slot.
    pub fn from(cap: CapPtr) -> (e: Endpoint)
        ensures
            e.0 == cap,
    {
        Endpoint(cap)
    }

    /// The slot that holds this endpoint.
    pub fn cap(&self) -> (c: CapPtr)
        ensures
            c == self.0,
    {
        self.0
    }
}

/// A physical frame capability.
#[derive(Debug, Clone, Copy, PartialEq, Eq, Structural)]
pub struct Frame(pub CapPtr);

impl Frame {
    /// The frame held in the given slot.
    pub fn from(cap: CapPtr) -> (f: Frame)
        ensures
            f.0 == cap,
    {
        Frame(cap)
    }

    /// The slot that holds this frame.
    pub fn cap(&self) -> (c: CapPtr)
        ensures
            c == self.0,
    {
        self.0
    }
}

/// A page capability (one or more contiguous pages).
#[derive(Debug, Clone, Copy, PartialEq, Eq, Structural)]
pub struct Page(pub CapPtr);

impl Page {
    /// The page held in the given slot.
    pub fn from(cap: CapPtr) -> (p: Page)
        ensures
            p.0 == cap,
    {
        Page(cap)
    }

    /// The slot that holds this page.
    pub fn cap(&self) -> (c: CapPtr)
        ensures
            c == self.0,
    {
        self.0
    }
}

/// A capability-space node.
#[derive(Debug, Clone, Copy, PartialEq, Eq, Structural)]
pub struct CNode(pub CapPtr);

impl CNode {
    /// The node held in the given slot.
    pub fn from(cap: CapPtr) -> (n: CNode)
        ensures
            n.0 == cap,
    {
        CNode(cap)
    }
}

/// An interrupt handler capability.
#[derive(Debug, Clone, Copy, PartialEq, Eq, Structural)]
pub struct IrqHandler(pub CapPtr);

impl IrqHandler {
    /// The handler held in the given slot.
    pub fn from(cap: CapPtr) -> (h: IrqHandler)
        ensures
            h.0 == cap,
    {
        IrqHandler(cap)
    }
}

/// The kernel console capability.
#[derive(Debug, Clone, Copy, PartialEq, Eq, Structural)]
pub struct Console(pub CapPtr);

impl Console {
    /// A console bound to no slot.
    pub fn null() -> (c: Console)
        ensures
            c.0.0 == 0,
    {
        Console(CapPtr(0))
    }

    /// The console held in the given slot.
    pub fn from(cap: CapPtr) -> (c: Console)
        ensures
            c.0 == cap,
    {
        Console(cap)
    }
}

/// Slot through which capabilities are handed to and from servers.
pub const RECV_SLOT: usize = 15;

/// Slot in which the console capability is installed at process creation.
pub const CONSOLE_SLOT: usize = 5;

} // verus!
