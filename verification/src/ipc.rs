use vstd::prelude::*;
use crate::cap::CapPtr;
use crate::error::Error;
use vstd::string::StringSliceAdditionalSpecFns;

verus! {

/// Number of message registers in a thread's UTCB.
pub const MR_COUNT: usize = 8;

/// Size in bytes of the IPC data buffer in a thread's UTCB.
pub const IPC_BUFFER_SIZE: usize = 2048;

/// Flag bit: the server accepted the request.
pub const FLAG_OK: usize = 1;
/// Flag bit: the message transfers a capability.
pub const FLAG_HAS_CAP: usize = 2;
/// Flag bit: the message carries data in the IPC buffer.
pub const FLAG_HAS_BUFFER: usize = 4;

/// The flag word of a message tag.
#[derive(Debug, Clone, Copy, PartialEq, Eq, Structural)]
pub struct MsgFlags {
    pub bits: usize,
}

impl MsgFlags {
    /// No flag set.
    pub fn none() -> (f: MsgFlags)
        ensures
            f.bits == 0,
    {
        MsgFlags { bits: 0 }
    }

    /// Only `OK` set.
    pub fn ok() -> (f: MsgFlags)
        ensures
            f.bits == FLAG_OK,
    {
        MsgFlags { bits: FLAG_OK }
    }

    /// Only `HAS_CAP` set.
    pub fn has_cap() -> (f: MsgFlags)
        ensures
            f.bits == FLAG_HAS_CAP,
    {
        MsgFlags { bits: FLAG_HAS_CAP }
    }

    /// Only `HAS_BUFFER` set.
    pub fn has_buffer() -> (f: MsgFlags)
        ensures
            f.bits == FLAG_HAS_BUFFER,
    {
        MsgFlags { bits: FLAG_HAS_BUFFER }
    }

    /// The flags set in either word.
    pub fn union(self, other: MsgFlags) -> (f: MsgFlags)
        ensures
            f.bits == self.bits | other.bits,
    {
        MsgFlags { bits: self.bits | other.bits }
    }

    /// True when every flag of `other` is set in `self`.
    pub fn contains(self, other: MsgFlags) -> (b: bool)
        ensures
            b == spec_contains(self.bits, other.bits),
    {
        (self.bits & other.bits) == other.bits
    }
}

/// Every bit of `other` is set in `bits`.
pub open spec fn spec_contains(bits: usize, other: usize) -> bool {
    (bits & other) == other
}

/// The tag of a message: protocol, operation label and flags.
#[derive(Debug, Clone, Copy, PartialEq, Eq, Structural)]
pub struct MsgTag {
    pub proto: usize,
    pub label: usize,
    pub flags: MsgFlags,
}

impl MsgTag {
    /// A tag for the given protocol, label and flags.
    pub fn new(proto: usize, label: usize, flags: MsgFlags) -> (t: MsgTag)
        ensures
            t.proto == proto,
            t.label == label,
            t.flags == flags,
    {
        MsgTag { proto, label, flags }
    }

    /// The flags of this tag.
    pub fn flags(&self) -> (f: MsgFlags)
        ensures
            f == self.flags,
    {
        self.flags
    }
}

/// The contents of a thread's UTCB as exchanged in one IPC call: the tag,
/// the message registers, the data buffer and the capability slots named
/// for transfer and for reception.
#[derive(Debug, Clone)]
pub struct Utcb {
    pub tag: MsgTag,
    pub mrs: Vec<usize>,
    pub buffer: Vec<u8>,
    pub cap_transfer: Option<CapPtr>,
    pub recv_window: Option<CapPtr>,
}

/// The register file `regs` holds `vals` in its first registers and zero in
/// the others.
pub open spec fn regs_hold(regs: Seq<usize>, vals: Seq<usize>) -> bool {
    &&& regs.len() == MR_COUNT
    &&& forall|i: int| 0 <= i < MR_COUNT ==> #[trigger] regs[i] == (if i < vals.len() { vals[i] } else { 0usize })
}

/// A request whose registers are `vals`, with the given tag, buffer and
/// capability slots.
pub open spec fn is_request(
    u: Utcb,
    proto: usize,
    label: usize,
    flags: usize,
    vals: Seq<usize>,
    buf: Seq<u8>,
    cap_transfer: Option<CapPtr>,
    recv_window: Option<CapPtr>,
) -> bool {
    &&& u.tag.proto == proto
    &&& u.tag.label == label
    &&& u.tag.flags.bits == flags
    &&& regs_hold(u.mrs@, vals)
    &&& u.buffer@ == buf
    &&& u.cap_transfer == cap_transfer
    &&& u.recv_window == recv_window
}

/// A request that carries only registers.
pub open spec fn is_plain_request(
    u: Utcb,
    proto: usize,
    label: usize,
    flags: usize,
    vals: Seq<usize>,
) -> bool {
    is_request(u, proto, label, flags, vals, Seq::empty(), None, None)
}

impl Utcb {
    /// Register `i` of the message, or zero past the register file.
    pub open spec fn mr(&self, i: int) -> usize {
        if 0 <= i < self.mrs.len() {
            self.mrs@[i]
        } else {
            0
        }
    }

    /// A cleared UTCB: zero tag, zero registers, empty buffer, no slots.
    pub fn new() -> (u: Utcb)
        ensures
            is_plain_request(u, 0, 0, 0, Seq::empty()),
    {
        let mut mrs: Vec<usize> = Vec::new();
        let mut i: usize = 0;
        while i < MR_COUNT
            invariant
                i <= MR_COUNT,
                mrs.len() == i,
                forall|k: int| 0 <= k < i ==> mrs@[k] == 0,
            decreases MR_COUNT - i,
        {
            mrs.push(0);
            i = i + 1;
        }
        Utcb {
            tag: MsgTag { proto: 0, label: 0, flags: MsgFlags { bits: 0 } },
            mrs,
            buffer: Vec::new(),
            cap_transfer: None,
            recv_window: None,
        }
    }

    /// A request with the given tag whose first registers hold `vals`.
    pub fn request(proto: usize, label: usize, flags: MsgFlags, vals: Vec<usize>) -> (u: Utcb)
        requires
            vals@.len() <= MR_COUNT,
        ensures
            is_plain_request(u, proto, label, flags.bits, vals@),
    {
        let mut mrs: Vec<usize> = Vec::new();
        let mut i: usize = 0;
        while i < MR_COUNT
            invariant
                i <= MR_COUNT,
                vals@.len() <= MR_COUNT,
                mrs.len() == i,
                forall|k: int|
                    0 <= k < i ==> mrs@[k] == (if k < vals@.len() { vals@[k] } else { 0usize }),
            decreases MR_COUNT - i,
        {
            if i < vals.len() {
                mrs.push(vals[i]);
            } else {
                mrs.push(0);
            }
            i = i + 1;
        }
        Utcb { tag: MsgTag { proto, label, flags }, mrs, buffer: Vec::new(), cap_transfer: None, recv_window: None }
    }

    /// A request with the given tag and registers carrying `data` in its
    /// buffer; refused with `MessageTooLong` when `data` does not fit.
    pub fn request_with_data(proto: usize, label: usize, flags: MsgFlags, vals: Vec<usize>, data: &[u8]) -> (r: Result<Utcb, Error>)
        requires
            vals@.len() <= MR_COUNT,
        ensures
            data@.len() > IPC_BUFFER_SIZE ==> r == Err::<Utcb, Error>(Error::MessageTooLong),
            data@.len() <= IPC_BUFFER_SIZE ==> r is Ok && is_request(r->Ok_0, proto, label, flags.bits, vals@, data@, None, None),
    {
        if data.len() > IPC_BUFFER_SIZE {
            return Err(Error::MessageTooLong);
        }
        let mut u = Utcb::request(proto, label, flags, vals);
        let n = u.write(data);
        assert(data@.subrange(0, n as int) =~= data@);
        Ok(u)
    }

    /// A request with the given tag and registers carrying the bytes of
    /// `s` in its buffer; refused with `MessageTooLong` when they do not fit.
    pub fn request_with_str(proto: usize, label: usize, flags: MsgFlags, vals: Vec<usize>, s: &str) -> (r: Result<Utcb, Error>)
        requires
            vals@.len() <= MR_COUNT,
        ensures
            s.spec_bytes().len() > IPC_BUFFER_SIZE ==> r == Err::<Utcb, Error>(Error::MessageTooLong),
            s.spec_bytes().len() <= IPC_BUFFER_SIZE ==> r is Ok && is_request(r->Ok_0, proto, label, flags.bits, vals@, s.spec_bytes(), None, None),
    {
        let mut u = Utcb::request(proto, label, flags, vals);
        match u.write_str(s) {
            Ok(()) => Ok(u),
            Err(e) => Err(e),
        }
    }

    /// Register `i`, or zero past the register file.
    pub fn get_mr(&self, i: usize) -> (v: usize)
        ensures
            v == self.mr(i as int),
    {
        if i < self.mrs.len() {
            self.mrs[i]
        } else {
            0
        }
    }

    /// Sets register `i`.
    pub fn set_mr(&mut self, i: usize, v: usize)
        requires
            i < old(self).mrs.len(),
        ensures
            final(self).mrs@ == old(self).mrs@.update(i as int, v),
            final(self).tag == old(self).tag,
            final(self).buffer@ == old(self).buffer@,
            final(self).cap_transfer == old(self).cap_transfer,
            final(self).recv_window == old(self).recv_window,
    {
        self.mrs.set(i, v);
    }

    /// The tag of the message.
    pub fn get_msg_tag(&self) -> (t: MsgTag)
        ensures
            t == self.tag,
    {
        self.tag
    }

    /// Number of data bytes in the buffer.
    pub fn get_size(&self) -> (n: usize)
        ensures
            n == self.buffer@.len(),
    {
        self.buffer.len()
    }

    /// Copies `data` into the buffer, as much as fits; returns the number
    /// of bytes copied.
    pub fn write(&mut self, data: &[u8]) -> (n: usize)
        ensures
            n == spec_min(data@.len() as int, IPC_BUFFER_SIZE as int),
            final(self).buffer@ == data@.subrange(0, n as int),
            final(self).tag == old(self).tag,
            final(self).mrs@ == old(self).mrs@,
            final(self).cap_transfer == old(self).cap_transfer,
            final(self).recv_window == old(self).recv_window,
    {
        let n = if data.len() < IPC_BUFFER_SIZE { data.len() } else { IPC_BUFFER_SIZE };
        let mut buf: Vec<u8> = Vec::new();
        let mut i: usize = 0;
        while i < n
            invariant
                n <= data@.len(),
                i <= n,
                buf@ == data@.subrange(0, i as int),
            decreases n - i,
        {
            buf.push(data[i]);
            i = i + 1;
            assert(buf@ =~= data@.subrange(0, i as int));
        }
        self.buffer = buf;
        n
    }

    /// The first `n` bytes of the IPC buffer as a reply leaves it: the
    /// data the reply carries, and zero bytes past them.
    pub fn data(&self, n: usize) -> (v: Vec<u8>)
        ensures
            v@ == spec_buffer_bytes(self.buffer@, n as int),
    {
        let mut v: Vec<u8> = Vec::new();
        let mut i: usize = 0;
        while i < n
            invariant
                i <= n,
                v@ == spec_buffer_bytes(self.buffer@, i as int),
            decreases n - i,
        {
            if i < self.buffer.len() {
                v.push(self.buffer[i]);
            } else {
                v.push(0u8);
            }
            i = i + 1;
            assert(v@ =~= spec_buffer_bytes(self.buffer@, i as int));
        }
        v
    }

    /// Copies the front of the buffer into `dst`, as much as both hold;
    /// returns the number of bytes copied.
    pub fn read(&self, dst: &mut [u8]) -> (n: usize)
        ensures
            n == spec_min(self.buffer@.len() as int, old(dst)@.len() as int),
            final(dst)@ == self.buffer@.subrange(0, n as int) + old(dst)@.subrange(n as int, old(dst)@.len() as int),
    {
        let n = if self.buffer.len() < dst.len() { self.buffer.len() } else { dst.len() };
        crate::bytes::copy_prefix(dst, self.buffer.as_slice(), n);
        n
    }

    /// Copies a string into the buffer; refuses one longer than the buffer.
    pub fn write_str(&mut self, s: &str) -> (r: Result<(), Error>)
        ensures
            s.spec_bytes().len() > IPC_BUFFER_SIZE ==> r == Err::<(), Error>(Error::MessageTooLong)
                && *final(self) == *old(self),
            s.spec_bytes().len() <= IPC_BUFFER_SIZE ==> r is Ok && final(self).buffer@
                == s.spec_bytes(),
            final(self).tag == old(self).tag,
            final(self).mrs@ == old(self).mrs@,
            final(self).cap_transfer == old(self).cap_transfer,
            final(self).recv_window == old(self).recv_window,
    {
        let bytes = s.as_bytes();
        if bytes.len() > IPC_BUFFER_SIZE {
            return Err(Error::MessageTooLong);
        }
        let n = self.write(bytes);
        assert(bytes@.subrange(0, n as int) =~= bytes@);
        Ok(())
    }

    /// Sets the tag.
    pub fn set_msg_tag(&mut self, tag: MsgTag)
        ensures
            final(self).tag == tag,
            final(self).mrs@ == old(self).mrs@,
            final(self).buffer@ == old(self).buffer@,
            final(self).cap_transfer == old(self).cap_transfer,
            final(self).recv_window == old(self).recv_window,
    {
        self.tag = tag;
    }

    /// Names the slot whose capability the message transfers.
    pub fn set_cap_transfer(&mut self, cap: CapPtr)
        ensures
            final(self).cap_transfer == Some(cap),
            final(self).tag == old(self).tag,
            final(self).mrs@ == old(self).mrs@,
            final(self).buffer@ == old(self).buffer@,
            final(self).recv_window == old(self).recv_window,
    {
        self.cap_transfer = Some(cap);
    }

    /// Names the slot that receives a capability from the reply.
    pub fn set_recv_window(&mut self, cap: CapPtr)
        ensures
            final(self).recv_window == Some(cap),
            final(self).tag == old(self).tag,
            final(self).mrs@ == old(self).mrs@,
            final(self).buffer@ == old(self).buffer@,
            final(self).cap_transfer == old(self).cap_transfer,
    {
        self.recv_window = Some(cap);
    }
}

/// The first `n` bytes of an IPC buffer that holds the data `data`: the
/// data, then zero bytes where the message carries none.
pub open spec fn spec_buffer_bytes(data: Seq<u8>, n: int) -> Seq<u8> {
    Seq::new(n as nat, |i: int| if i < data.len() { data[i] } else { 0u8 })
}

/// The `i`-th piece of `data` when it is cut into pieces of
/// `IPC_BUFFER_SIZE` bytes (the last one possibly shorter).
pub open spec fn spec_piece(data: Seq<u8>, i: int) -> Seq<u8> {
    data.subrange(i * IPC_BUFFER_SIZE, spec_min((i + 1) * IPC_BUFFER_SIZE, data.len() as int))
}

/// Number of pieces `data` is cut into: none for no data.
pub open spec fn spec_piece_count(data: Seq<u8>) -> int {
    (data.len() + IPC_BUFFER_SIZE - 1) / (IPC_BUFFER_SIZE as int)
}

/// The first `k` pieces of `data`, joined again.
pub open spec fn spec_joined_pieces(data: Seq<u8>, k: int) -> Seq<u8>
    decreases k,
{
    if k <= 0 {
        Seq::empty()
    } else {
        spec_joined_pieces(data, k - 1) + spec_piece(data, k - 1)
    }
}

/// One request per piece of `data`, each carrying its piece in the buffer
/// under the given tag and no registers.
pub fn piece_requests(proto: usize, label: usize, data: &[u8]) -> (reqs: Vec<Utcb>)
    ensures
        reqs@.len() == spec_piece_count(data@),
        forall|i: int| 0 <= i < reqs@.len() ==> is_request(#[trigger] reqs@[i], proto, label, 0, Seq::empty(), spec_piece(data@, i), None, None),
{
    let mut reqs: Vec<Utcb> = Vec::new();
    let mut off: usize = 0;
    let len = data.len();
    while off < len
        invariant
            len == data@.len(),
            off <= len,
            off < len ==> off == reqs@.len() * IPC_BUFFER_SIZE,
            reqs@.len() * IPC_BUFFER_SIZE < len + IPC_BUFFER_SIZE,
            off >= len ==> reqs@.len() == spec_piece_count(data@),
            off < len ==> reqs@.len() < spec_piece_count(data@),
            forall|i: int| 0 <= i < reqs@.len() ==> is_request(#[trigger] reqs@[i], proto, label, 0, Seq::empty(), spec_piece(data@, i), None, None),
        decreases len - off,
    {
        let end = if len - off < IPC_BUFFER_SIZE { len } else { off + IPC_BUFFER_SIZE };
        let piece = crate::bytes::sub_vec(data, off, end);
        let mut u = Utcb::request(proto, label, MsgFlags::none(), vec![]);
        let n = u.write(piece.as_slice());
        assert(piece@.subrange(0, n as int) =~= piece@);
        let ghost i = reqs@.len() as int;
        assert(spec_piece(data@, i) == piece@);
        reqs.push(u);
        off = end;

    }
    reqs
}

/// Joining all pieces of `data` gives `data` back, and no piece is empty
/// or larger than the IPC buffer.
pub proof fn lemma_pieces_join(data: Seq<u8>)
    ensures
        spec_joined_pieces(data, spec_piece_count(data)) == data,
        forall|i: int| 0 <= i < spec_piece_count(data) ==> 0 < #[trigger] spec_piece(data, i).len() <= IPC_BUFFER_SIZE,
{
    let n = spec_piece_count(data);
    assert forall|k: int| 0 <= k <= n implies #[trigger] spec_joined_pieces(data, k) == data.subrange(0, spec_min(k * IPC_BUFFER_SIZE, data.len() as int)) by {
        lemma_joined_prefix(data, k);
    }
    assert(spec_min(n * IPC_BUFFER_SIZE, data.len() as int) == data.len());
    assert(data.subrange(0, data.len() as int) =~= data);
}

proof fn lemma_joined_prefix(data: Seq<u8>, k: int)
    requires
        0 <= k <= spec_piece_count(data),
    ensures
        spec_joined_pieces(data, k) == data.subrange(0, spec_min(k * IPC_BUFFER_SIZE, data.len() as int)),
    decreases k,
{
    if k > 0 {
        lemma_joined_prefix(data, k - 1);
        assert(spec_joined_pieces(data, k) =~= data.subrange(0, spec_min(k * IPC_BUFFER_SIZE, data.len() as int)));
    } else {
        assert(data.subrange(0, 0) =~= Seq::<u8>::empty());
    }
}

/// The smaller of two integers.
pub open spec fn spec_min(a: int, b: int) -> int {
    if a < b {
        a
    } else {
        b
    }
}

} // verus!
