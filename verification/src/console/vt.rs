use vstd::prelude::*;
use crate::cap::Frame;
use crate::client::terminal::TerminalClient;
use crate::console::kconsole::FmtError;
use crate::error::Error;

verus! {

/// Where a virtual terminal's shared frame is mapped.
pub const CONSOLE_VT_VADDR: usize = 0x4000_0000;
/// Number of ring entries a virtual terminal console uses.
pub const CONSOLE_VT_ENTRIES: usize = 32;

/// Standard input and output over a connected virtual terminal, whose
/// shared frame is mapped at `base`.
pub struct ConsoleVT {
    client: TerminalClient,
    base: usize,
    entries: usize,
}

impl ConsoleVT {
    pub closed spec fn terminal(&self) -> TerminalClient { self.client }
    pub closed spec fn spec_base(&self) -> usize { self.base }
    pub closed spec fn spec_entries(&self) -> usize { self.entries }

    /// A console over a terminal that has been connected: refused with
    /// `NotInitialized` when the terminal has no ring configuration or no
    /// shared frame; the frame is to be mapped (one page, read-write) at
    /// [`CONSOLE_VT_VADDR`].
    pub fn new(client: TerminalClient) -> (r: Result<ConsoleVT, Error>)
        ensures
            (client.config_state() is None || client.frame_state() is None) ==> r == Err::<ConsoleVT, Error>(Error::NotInitialized),
            (client.config_state() is Some && client.frame_state() is Some) ==> r is Ok
                && r->Ok_0.terminal() == client
                && r->Ok_0.spec_base() == CONSOLE_VT_VADDR
                && r->Ok_0.spec_entries() == CONSOLE_VT_ENTRIES,
    {
        if client.config().is_none() {
            return Err(Error::NotInitialized);
        }
        if client.frame().is_none() {
            return Err(Error::NotInitialized);
        }
        Ok(ConsoleVT { client, base: CONSOLE_VT_VADDR, entries: CONSOLE_VT_ENTRIES })
    }

    /// The frame to map and where: the terminal's shared frame, one page
    /// at the console's base.
    pub fn mapping(&self) -> (m: (Frame, usize, usize))
        requires
            self.terminal().frame_state() is Some,
        ensures
            m == (self.terminal().frame_state()->0, self.spec_base(), 1usize),
    {
        match self.client.frame() {
            Some(f) => (f, self.base, 1),
            None => (Frame::from(crate::cap::CapPtr::null()), self.base, 1),
        }
    }

    /// The range to unmap when the console is destroyed: one page at its
    /// base.
    pub fn unmap_range(&self) -> (r: (usize, usize))
        ensures
            r == (self.spec_base(), 1usize),
    {
        (self.base, 1)
    }

    /// The terminal underneath.
    pub fn client(&self) -> (c: &TerminalClient)
        ensures
            *c == self.terminal(),
    {
        &self.client
    }

    /// Number of ring entries.
    pub fn entries(&self) -> (n: usize)
        ensures
            n == self.spec_entries(),
    {
        self.entries
    }

    /// Reading yields no bytes.
    pub fn read(&mut self, buf: &mut [u8]) -> (r: Result<usize, Error>)
        ensures
            r == Ok::<usize, Error>(0),
            *final(self) == *old(self),
            final(buf)@ == old(buf)@,
    {
        Ok(0)
    }

    /// Writing accepts the whole buffer.
    pub fn write(&mut self, buf: &[u8]) -> (r: Result<usize, Error>)
        ensures
            r == Ok::<usize, Error>(buf@.len() as usize),
            *final(self) == *old(self),
    {
        Ok(buf.len())
    }

    /// Flushing has nothing to do.
    pub fn flush(&mut self) -> (r: Result<(), Error>)
        ensures
            r is Ok,
            *final(self) == *old(self),
    {
        Ok(())
    }

    /// Writes a string; fails only when the write does.
    pub fn write_str(&mut self, s: &str) -> (r: Result<(), FmtError>)
        ensures
            r is Ok,
            *final(self) == *old(self),
    {
        match self.write(s.as_bytes()) {
            Ok(_) => Ok(()),
            Err(_) => Err(FmtError),
        }
    }
}

} // verus!
