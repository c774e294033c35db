use vstd::prelude::*;
use vstd::string::StringSliceAdditionalSpecFns;
use vstd::utf8::{
    encode_utf8_valid_utf8, is_char_boundary, valid_utf8, valid_utf8_concat, valid_utf8_split,
};
use crate::cap::Console;

verus! {

/// Capacity in bytes of one formatted console line.
pub const PRINT_BUF_SIZE: usize = 1024;

/// Returned by [`FixedBuf::write_str`] when the text did not fit whole.
#[derive(Debug, Clone, Copy, PartialEq, Eq, Structural)]
pub struct FmtError;

/// A line buffer of at most [`PRINT_BUF_SIZE`] bytes that only ever holds
/// whole UTF-8 characters: text that does not fit is cut at the last
/// character boundary that fits, and the buffer remembers that it cut.
pub struct FixedBuf {
    buf: Vec<u8>,
    truncated: bool,
}

/// The largest character boundary of `bytes` that is at most `limit`.
pub open spec fn boundary_at_most(bytes: Seq<u8>, limit: int) -> int
    decreases limit,
{
    if limit <= 0 {
        0
    } else if is_char_boundary(bytes, limit) {
        limit
    } else {
        boundary_at_most(bytes, limit - 1)
    }
}

/// How many bytes of `text` a buffer holding `held` bytes takes in.
pub open spec fn accepted_len(held: int, text: Seq<u8>) -> int {
    let room = PRINT_BUF_SIZE - held;
    if room <= 0 {
        0
    } else {
        boundary_at_most(text, if text.len() < room { text.len() as int } else { room })
    }
}

proof fn lemma_boundary_at_most(bytes: Seq<u8>, limit: int)
    requires
        valid_utf8(bytes),
        0 <= limit <= bytes.len(),
    ensures
        0 <= boundary_at_most(bytes, limit) <= limit,
        is_char_boundary(bytes, boundary_at_most(bytes, limit)),
        forall|k: int|
            boundary_at_most(bytes, limit) < k <= limit ==> !is_char_boundary(bytes, k),
    decreases limit,
{
    if limit > 0 && !is_char_boundary(bytes, limit) {
        lemma_boundary_at_most(bytes, limit - 1);
    }
}

impl FixedBuf {
    /// Well-formedness: at most `PRINT_BUF_SIZE` bytes, all valid UTF-8.
    pub closed spec fn wf(&self) -> bool {
        &&& self.buf@.len() <= PRINT_BUF_SIZE
        &&& valid_utf8(self.buf@)
    }

    /// The bytes held.
    pub closed spec fn contents(&self) -> Seq<u8> {
        self.buf@
    }

    /// Whether some text was cut or refused.
    pub closed spec fn was_truncated(&self) -> bool {
        self.truncated
    }

    /// An empty buffer.
    pub fn new() -> (b: FixedBuf)
        ensures
            b.wf(),
            b.contents() == Seq::<u8>::empty(),
            !b.was_truncated(),
    {
        assert(valid_utf8(Seq::<u8>::empty()));
        FixedBuf { buf: Vec::new(), truncated: false }
    }

    /// Number of bytes held.
    pub fn len(&self) -> (n: usize)
        ensures
            n == self.contents().len(),
    {
        self.buf.len()
    }

    /// Whether some text was cut or refused.
    pub fn truncated(&self) -> (t: bool)
        ensures
            t == self.was_truncated(),
    {
        self.truncated
    }

    /// The text held.
    pub fn as_str(&self) -> (s: &str)
        requires
            self.wf(),
        ensures
            s.spec_bytes() == self.contents(),
    {
        bytes_as_str(self.buf.as_slice())
    }

    /// Appends as much of `s` as fits, cut at a character boundary.
    /// Fails, and marks the buffer truncated, when the buffer was already
    /// full or when `s` did not fit whole.
    pub fn write_str(&mut self, s: &str) -> (r: Result<(), FmtError>)
        requires
            old(self).wf(),
        ensures
            final(self).wf(),
            final(self).contents() == old(self).contents() + s.spec_bytes().subrange(
                0,
                accepted_len(old(self).contents().len() as int, s.spec_bytes()),
            ),
            r is Ok <==> (old(self).contents().len() < PRINT_BUF_SIZE && accepted_len(
                old(self).contents().len() as int,
                s.spec_bytes(),
            ) == s.spec_bytes().len()),
            final(self).was_truncated() == (old(self).was_truncated() || r is Err),
    {
        let bytes = s.as_bytes();
        proof {
            broadcast use encode_utf8_valid_utf8;
            assert(valid_utf8(bytes@));
        }
        let len = self.buf.len();
        let remaining = PRINT_BUF_SIZE - len;
        if remaining == 0 {
            self.truncated = true;
            assert(s.spec_bytes().subrange(0, 0) =~= Seq::<u8>::empty());
            assert(self.buf@ =~= old(self).buf@ + s.spec_bytes().subrange(0, 0));
            return Err(FmtError);
        }
        let limit = if bytes.len() < remaining { bytes.len() } else { remaining };
        let mut copy_len = limit;
        while copy_len > 0 && !s.is_char_boundary(copy_len)
            invariant
                copy_len <= limit,
                limit <= bytes@.len(),
                bytes@ == s.spec_bytes(),
                valid_utf8(bytes@),
                boundary_at_most(bytes@, copy_len as int) == boundary_at_most(bytes@, limit as int),
            decreases copy_len,
        {
            copy_len = copy_len - 1;
        }
        proof {
            lemma_boundary_at_most(bytes@, limit as int);
            assert(boundary_at_most(bytes@, copy_len as int) == copy_len);
            valid_utf8_split(bytes@, copy_len as int);
        }
        let mut i: usize = 0;
        while i < copy_len
            invariant
                i <= copy_len,
                copy_len <= bytes@.len(),
                len + copy_len <= PRINT_BUF_SIZE,
                self.buf@ == old(self).buf@ + bytes@.subrange(0, i as int),
                self.truncated == old(self).truncated,
            decreases copy_len - i,
        {
            self.buf.push(bytes[i]);
            i = i + 1;
            assert(self.buf@ =~= old(self).buf@ + bytes@.subrange(0, i as int));
        }
        proof {
            valid_utf8_concat(old(self).buf@, bytes@.subrange(0, copy_len as int));
        }
        if copy_len != bytes.len() {
            self.truncated = true;
            return Err(FmtError);
        }
        Ok(())
    }
}

/// Views bytes that are valid UTF-8 as a string slice.
/// Calls `core::str::from_utf8`, whose documentation says that it succeeds
/// exactly on valid UTF-8 and then views the same bytes.
#[verifier::external_body]
fn bytes_as_str(bytes: &[u8]) -> (s: &str)
    requires
        valid_utf8(bytes@),
    ensures
        s.spec_bytes() == bytes@,
{
    core::str::from_utf8(bytes).unwrap_or("")
}

/// A console that writes through the kernel console capability.
pub struct KConsole(pub Console);

impl KConsole {
    /// A console bound to the given capability.
    pub fn new(cap: Console) -> (k: KConsole)
        ensures
            k.0 == cap,
    {
        KConsole(cap)
    }

    /// A console bound to no capability yet.
    pub fn null() -> (k: KConsole)
        ensures
            k.0.0.0 == 0,
    {
        KConsole(Console::null())
    }

    /// Binds the console to a capability.
    pub fn initialize(&mut self, cap: Console)
        ensures
            final(self).0 == cap,
    {
        self.0 = cap;
    }
}

/// A line buffer that is full takes in nothing of any further text.
pub proof fn lemma_fixed_buf_full_refuses(held: Seq<u8>, text: Seq<u8>)
    requires
        held.len() == PRINT_BUF_SIZE,
    ensures
        accepted_len(held.len() as int, text) == 0,
{
}

} // verus!
