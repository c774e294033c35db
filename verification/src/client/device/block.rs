use vstd::prelude::*;
use crate::bytes::copy_prefix;
use crate::cap::Endpoint;
use crate::error::Error;
use crate::ipc::{is_plain_request, is_request, MsgFlags, Utcb, IPC_BUFFER_SIZE};
use crate::protocol::block::{GET_BLOCK_SIZE, GET_CAPACITY, READ_BLOCKS, SYNC, WRITE_BLOCKS};
use crate::protocol::BLOCK_PROTO;
use vstd::arithmetic::div_mod::{lemma_fundamental_div_mod, lemma_mod_multiples_basic};

verus! {

/// Block size assumed when the device does not answer.
pub const DEFAULT_BLOCK_SIZE: u32 = 512;

/// Client of a block device.
pub struct BlockClient {
    endpoint: Endpoint,
}

/// One request of a multi-block transfer: `num_blocks` blocks at `sector`,
/// carried in the `len` bytes of the caller's buffer at `offset`.
#[derive(Debug, Clone, Copy, PartialEq, Eq, Structural)]
pub struct BlockChunk {
    pub sector: u64,
    pub offset: usize,
    pub len: usize,
    pub num_blocks: usize,
}

/// Progress of a transfer of a `buf_len`-byte buffer split into requests of
/// at most `blocks_per_req` blocks, each as large as the IPC buffer allows.
pub struct BlockTransfer {
    start_sector: u64,
    sector: u64,
    buf_len: usize,
    block_size: usize,
    blocks_per_req: usize,
    offset: usize,
    total: usize,
    short: bool,
}

impl BlockClient {
    /// The endpoint requests go to.
    pub closed spec fn ep(&self) -> Endpoint {
        self.endpoint
    }

    /// The endpoint requests go to.
    pub fn endpoint(&self) -> (e: Endpoint)
        ensures
            e == self.ep(),
    {
        self.endpoint
    }

    /// A client of the device at `endpoint`.
    pub fn new(endpoint: Endpoint) -> (c: BlockClient)
        ensures
            c.ep() == endpoint,
    {
        BlockClient { endpoint }
    }

    /// Request for the device capacity.
    pub fn capacity_request(&self) -> (u: Utcb)
        ensures
            is_plain_request(u, BLOCK_PROTO, GET_CAPACITY, 0, Seq::empty()),
    {
        Utcb::request(BLOCK_PROTO, GET_CAPACITY, MsgFlags::none(), vec![])
    }

    /// The capacity: register 0 when the call succeeded, 0 when it failed.
    pub fn capacity_reply(call: Result<(), Error>, reply: &Utcb) -> (n: u64)
        ensures
            n == if call is Ok { reply.mr(0) as u64 } else { 0 },
    {
        match call {
            Ok(()) => reply.get_mr(0) as u64,
            Err(_) => 0,
        }
    }

    /// Request for the device block size.
    pub fn block_size_request(&self) -> (u: Utcb)
        ensures
            is_plain_request(u, BLOCK_PROTO, GET_BLOCK_SIZE, 0, Seq::empty()),
    {
        Utcb::request(BLOCK_PROTO, GET_BLOCK_SIZE, MsgFlags::none(), vec![])
    }

    /// The block size: register 0 (cut to 32 bits) when the call
    /// succeeded, 512 when it failed.
    pub fn block_size_reply(call: Result<(), Error>, reply: &Utcb) -> (n: u32)
        ensures
            n == if call is Ok { reply.mr(0) as u32 } else { DEFAULT_BLOCK_SIZE },
    {
        match call {
            Ok(()) => reply.get_mr(0) as u32,
            Err(_) => DEFAULT_BLOCK_SIZE,
        }
    }

    /// Request reading the blocks of `chunk`.
    pub fn read_chunk_request(&self, chunk: &BlockChunk) -> (u: Utcb)
        ensures
            is_plain_request(u, BLOCK_PROTO, READ_BLOCKS, 0, seq![chunk.sector as usize, chunk.num_blocks]),
    {
        Utcb::request(BLOCK_PROTO, READ_BLOCKS, MsgFlags::none(), vec![chunk.sector as usize, chunk.num_blocks])
    }

    /// Copies the data of a read reply into the chunk's part of the
    /// caller's buffer; returns the number of bytes read.
    pub fn read_chunk_reply(reply: &Utcb, chunk_buf: &mut [u8]) -> (n: usize)
        requires
            reply.buffer@.len() <= old(chunk_buf)@.len(),
        ensures
            n == reply.buffer@.len(),
            final(chunk_buf)@ == reply.buffer@ + old(chunk_buf)@.subrange(n as int, old(chunk_buf)@.len() as int),
    {
        let n = reply.buffer.len();
        copy_prefix(chunk_buf, reply.buffer.as_slice(), n);
        assert(reply.buffer@.subrange(0, n as int) =~= reply.buffer@);
        n
    }

    /// Request writing `data`, the chunk's part of the caller's buffer.
    pub fn write_chunk_request(&self, chunk: &BlockChunk, data: &[u8]) -> (u: Utcb)
        requires
            data@.len() <= IPC_BUFFER_SIZE,
        ensures
            is_request(u, BLOCK_PROTO, WRITE_BLOCKS, 0, seq![chunk.sector as usize, chunk.num_blocks], data@, None, None),
    {
        let mut u = Utcb::request(BLOCK_PROTO, WRITE_BLOCKS, MsgFlags::none(), vec![chunk.sector as usize, chunk.num_blocks]);
        let n = u.write(data);
        assert(data@.subrange(0, n as int) =~= data@);
        u
    }

    /// Request flushing the device.
    pub fn sync_request(&self) -> (u: Utcb)
        ensures
            is_plain_request(u, BLOCK_PROTO, SYNC, 0, Seq::empty()),
    {
        Utcb::request(BLOCK_PROTO, SYNC, MsgFlags::none(), vec![])
    }
}

/// The request that comes after `offset` bytes of a `buf_len`-byte buffer
/// were handled, if any: the rest of the buffer up to one full request, as
/// long as it holds a whole block.
pub open spec fn spec_next_chunk(
    sector: u64,
    offset: int,
    buf_len: int,
    block_size: int,
    blocks_per_req: int,
    short: bool,
) -> Option<BlockChunk> {
    let full = blocks_per_req * block_size;
    let len = if buf_len - offset < full { buf_len - offset } else { full };
    if short || offset >= buf_len || len / block_size == 0 {
        None
    } else {
        Some(BlockChunk { sector, offset: offset as usize, len: len as usize, num_blocks: (len / block_size) as usize })
    }
}

proof fn lemma_div_add(a: int, b: int, d: int)
    requires
        d > 0,
        a >= 0,
        b >= 0,
        a % d == 0,
    ensures
        (a + b) / d == a / d + b / d,
        a / d + b / d <= (a + b) / d,
{
    assert(a == d * (a / d)) by (nonlinear_arith)
        requires d > 0, a % d == 0;
    assert((d * (a / d) + b) / d == a / d + b / d) by (nonlinear_arith)
        requires d > 0, b >= 0;
}

impl BlockTransfer {
    pub closed spec fn start(&self) -> u64 { self.start_sector }
    pub closed spec fn cur_sector(&self) -> u64 { self.sector }
    pub closed spec fn len(&self) -> usize { self.buf_len }
    pub closed spec fn bs(&self) -> usize { self.block_size }
    pub closed spec fn per_req(&self) -> usize { self.blocks_per_req }
    pub closed spec fn done(&self) -> usize { self.offset }
    pub closed spec fn moved(&self) -> usize { self.total }
    pub closed spec fn stopped_short(&self) -> bool { self.short }

    /// The transfer's invariant: whole requests so far (or the buffer's
    /// end), the sector advanced by the blocks covered, and every byte of
    /// the handled part moved unless a read came back short.
    pub closed spec fn wf(&self) -> bool {
        let full = self.blocks_per_req as int * self.block_size as int;
        &&& self.block_size > 0
        &&& self.blocks_per_req > 0
        &&& full <= IPC_BUFFER_SIZE
        &&& self.offset <= self.buf_len
        &&& ((self.offset as int) % full == 0 || self.offset == self.buf_len)
        &&& ((self.offset as int) % (self.block_size as int) == 0 || self.offset == self.buf_len)
        &&& self.sector == self.start_sector + (self.offset as int) / (self.block_size as int)
        &&& self.start_sector + (self.buf_len as int) / (self.block_size as int) <= u64::MAX
        &&& self.total <= self.offset
        &&& (!self.short ==> self.total == self.offset)
    }

    /// The next request of the transfer, if any.
    pub open spec fn next(&self) -> Option<BlockChunk> {
        spec_next_chunk(self.cur_sector(), self.done() as int, self.len() as int, self.bs() as int, self.per_req() as int, self.stopped_short())
    }

    /// Starts a transfer of a `buf_len`-byte buffer at `sector` on a device
    /// with blocks of `block_size` bytes; refused with `InvalidArgs` when
    /// the block size is zero or larger than the IPC buffer.
    pub fn new(sector: u64, buf_len: usize, block_size: u32) -> (r: Result<BlockTransfer, Error>)
        requires
            block_size > 0 ==> sector + (buf_len as int) / (block_size as int) <= u64::MAX,
        ensures
            (block_size == 0 || block_size > IPC_BUFFER_SIZE) ==> r == Err::<BlockTransfer, Error>(Error::InvalidArgs),
            (block_size > 0 && block_size <= IPC_BUFFER_SIZE) ==> r is Ok && r->Ok_0.wf()
                && r->Ok_0.start() == sector && r->Ok_0.cur_sector() == sector
                && r->Ok_0.len() == buf_len && r->Ok_0.bs() == block_size
                && r->Ok_0.per_req() as int == (IPC_BUFFER_SIZE as int) / (block_size as int)
                && r->Ok_0.done() == 0 && r->Ok_0.moved() == 0 && !r->Ok_0.stopped_short(),
    {
        let bs = block_size as usize;
        if bs == 0 {
            return Err(Error::InvalidArgs);
        }
        let per_req = IPC_BUFFER_SIZE / bs;
        proof {
            if bs <= IPC_BUFFER_SIZE {
                assert(per_req >= 1) by (nonlinear_arith)
                    requires bs > 0, bs <= IPC_BUFFER_SIZE, per_req == IPC_BUFFER_SIZE / bs;
            } else {
                assert(per_req == 0) by (nonlinear_arith)
                    requires bs > IPC_BUFFER_SIZE, per_req == IPC_BUFFER_SIZE / bs;
            }
        }
        if per_req == 0 {
            return Err(Error::InvalidArgs);
        }
        assert(per_req * bs <= IPC_BUFFER_SIZE) by (nonlinear_arith)
            requires per_req == IPC_BUFFER_SIZE / bs, bs > 0;
        assert(per_req * bs > 0) by (nonlinear_arith)
            requires per_req >= 1, bs >= 1;
        assert(0int % (per_req * bs) as int == 0) by (nonlinear_arith)
            requires per_req * bs > 0;
        Ok(BlockTransfer {
            start_sector: sector,
            sector,
            buf_len,
            block_size: bs,
            blocks_per_req: per_req,
            offset: 0,
            total: 0,
            short: false,
        })
    }

    /// Bytes moved so far.
    pub fn total(&self) -> (n: usize)
        ensures
            n == self.moved(),
    {
        self.total
    }

    /// The next request, or `None` once the transfer is over.
    pub fn next_chunk(&self) -> (c: Option<BlockChunk>)
        requires
            self.wf(),
        ensures
            c == self.next(),
    {
        if self.short || self.offset >= self.buf_len {
            return None;
        }
        let full = self.blocks_per_req * self.block_size;
        proof {
            assert(self.blocks_per_req * self.block_size <= IPC_BUFFER_SIZE);
        }
        let rest = self.buf_len - self.offset;
        let len = if rest < full { rest } else { full };
        let num_blocks = len / self.block_size;
        if num_blocks == 0 {
            return None;
        }
        Some(BlockChunk { sector: self.sector, offset: self.offset, len, num_blocks })
    }

    /// Records that the current request moved `got` of its bytes; a
    /// request that moved fewer than all of them ends the transfer.
    pub fn complete_chunk(&mut self, got: usize)
        requires
            old(self).wf(),
            old(self).next() is Some,
            got <= old(self).next()->0.len,
        ensures
            final(self).wf(),
            final(self).start() == old(self).start(),
            final(self).len() == old(self).len(),
            final(self).bs() == old(self).bs(),
            final(self).per_req() == old(self).per_req(),
            final(self).done() == old(self).done() + old(self).next()->0.len,
            final(self).cur_sector() == old(self).cur_sector() + old(self).next()->0.num_blocks,
            final(self).moved() == old(self).moved() + got,
            final(self).stopped_short() == (got < old(self).next()->0.len),
    {
        let full = self.blocks_per_req * self.block_size;
        let rest = self.buf_len - self.offset;
        let len = if rest < full { rest } else { full };
        let num_blocks = len / self.block_size;
        proof {
            let bs = self.block_size as int;
            let off = self.offset as int;
            assert(off % bs == 0);
            lemma_div_add(off, len as int, bs);
            assert((off + len) / bs <= (self.buf_len as int) / bs) by (nonlinear_arith)
                requires off + len <= self.buf_len, bs > 0;
            let f = full as int;
            if len == full {
                assert((off + f) % f == 0) by (nonlinear_arith)
                    requires off % f == 0, f > 0;
                let q = (off + f) / f;
                lemma_fundamental_div_mod(off + f, f);
                assert(off + f == (q * self.blocks_per_req as int) * bs) by (nonlinear_arith)
                    requires off + f == f * q + 0, f == self.blocks_per_req as int * bs;
                lemma_mod_multiples_basic(q * self.blocks_per_req as int, bs);
            }
        }
        self.sector = self.sector + num_blocks as u64;
        self.offset = self.offset + len;
        self.total = self.total + got;
        self.short = got < len;
    }
}

/// A transfer in which every request moved all its bytes ends having moved
/// the whole buffer, or all of it but a trailing part smaller than one
/// block; and the sector has advanced by the blocks moved.
pub proof fn lemma_transfer_end(t: BlockTransfer)
    requires
        t.wf(),
        !t.stopped_short(),
        t.next() is None,
    ensures
        t.moved() == t.done(),
        t.done() == t.len() || t.len() - t.done() < t.bs(),
        t.cur_sector() == t.start() + (t.done() as int) / (t.bs() as int),
{
    let full = t.per_req() * t.bs();
    if t.done() < t.len() {
        let rest = t.len() - t.done();
        let len = if rest < full { rest } else { full };
        assert((len as int) / (t.bs() as int) == 0);
        assert(len < t.bs()) by (nonlinear_arith)
            requires (len as int) / (t.bs() as int) == 0, t.bs() > 0, len >= 0;
        if len == full {
            assert((full as int) / (t.bs() as int) == t.per_req() as int) by (nonlinear_arith)
                requires full == t.per_req() * t.bs(), t.bs() > 0;
        }
    }
}

} // verus!
