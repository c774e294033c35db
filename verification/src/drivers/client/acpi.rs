use vstd::prelude::*;
use crate::cap::Endpoint;
use crate::encoding::{encode_method_call, spec_method_call};
use crate::error::Error;
use crate::wire::{read_u64_le, spec_le_u64};
use crate::ipc::{is_request, MsgFlags, Utcb, FLAG_HAS_BUFFER, IPC_BUFFER_SIZE};
use crate::protocol::acpi::EVAL_METHOD;
use crate::protocol::ACPI_PROTO;

verus! {

/// Client of the ACPI driver.
pub struct AcpiClient {
    endpoint: Endpoint,
}

/// The whole little-endian 64-bit words at the front of `b`.
pub open spec fn spec_le_words(b: Seq<u8>) -> Seq<u64> {
    Seq::new((b.len() / 8) as nat, |i: int| spec_le_u64(b, 8 * i))
}

impl AcpiClient {
    /// The endpoint requests go to.
    pub closed spec fn ep(&self) -> Endpoint {
        self.endpoint
    }

    /// The endpoint requests go to.
    pub fn endpoint(&self) -> (e: Endpoint)
        ensures
            e == self.ep(),
    {
        self.endpoint
    }

    /// A client of the driver at `endpoint`.
    pub fn new(endpoint: Endpoint) -> (c: AcpiClient)
        ensures
            c.ep() == endpoint,
    {
        AcpiClient { endpoint }
    }

    /// Connecting has nothing to set up.
    pub fn connect(&mut self) -> (r: Result<(), Error>)
        ensures
            r is Ok,
            *final(self) == *old(self),
    {
        Ok(())
    }

    /// Disconnecting has nothing to release.
    pub fn disconnect(&mut self) -> (r: Result<(), Error>)
        ensures
            r is Ok,
            *final(self) == *old(self),
    {
        Ok(())
    }

    /// Request to evaluate the method at `path` with the arguments
    /// `args`; the call travels encoded, refused with `MessageTooLong` when
    /// the encoding does not fit.
    pub fn evaluate_method_request(&self, path: &str, args: &[u64]) -> (r: Result<Utcb, Error>)
        ensures
            spec_method_call(path@, args@).len() > IPC_BUFFER_SIZE ==> r == Err::<Utcb, Error>(Error::MessageTooLong),
            spec_method_call(path@, args@).len() <= IPC_BUFFER_SIZE ==> r is Ok
                && is_request(r->Ok_0, ACPI_PROTO, EVAL_METHOD, FLAG_HAS_BUFFER, Seq::empty(), spec_method_call(path@, args@), None, None),
    {
        let call = encode_method_call(path, args);
        Utcb::request_with_data(ACPI_PROTO, EVAL_METHOD, MsgFlags::has_buffer(), vec![], call.as_slice())
    }

    /// The method's results: the reply's data read as little-endian
    /// 64-bit words, as many whole words as it holds.
    pub fn evaluate_method_reply(reply: &Utcb) -> (v: Vec<u64>)
        ensures
            v@ == spec_le_words(reply.buffer@),
    {
        let b = reply.buffer.as_slice();
        let len = b.len();
        let n = len / 8;
        let mut v: Vec<u64> = Vec::new();
        let mut i: usize = 0;
        let mut off: usize = 0;
        while i < n
            invariant
                n == b@.len() / 8,
                len == b@.len(),
                i <= n,
                off == 8 * i,
                b@ == reply.buffer@,
                v@ == spec_le_words(b@).subrange(0, i as int),
            decreases n - i,
        {
            assert(off + 8 <= b@.len()) by (nonlinear_arith)
                requires i < n, n == b@.len() / 8, off == 8 * i;
            v.push(read_u64_le(b, off));
            i = i + 1;
            off = off + 8;
            assert(v@ =~= spec_le_words(b@).subrange(0, i as int));
        }
        assert(spec_le_words(b@).subrange(0, n as int) =~= spec_le_words(b@));
        v
    }
}

} // verus!
