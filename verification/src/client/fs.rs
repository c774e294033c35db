use vstd::prelude::*;
use crate::bytes::copy_prefix;
use crate::cap::{Badge, CapPtr, Endpoint, Page, RECV_SLOT};
use crate::encoding::{encode_str_pair, spec_str};
use crate::error::Error;
use crate::ipc::{
    is_plain_request, is_request, spec_buffer_bytes, spec_contains, MsgFlags, Utcb, FLAG_HAS_BUFFER, FLAG_HAS_CAP,
    IPC_BUFFER_SIZE,
};
use crate::protocol::fs::{
    CLOSE, CREATE_VIEW, GETDENTS, IOCTL_EX, LINK, LSTAT_PATH, MAP_PAGE, MKDIR, MOUNT, OPEN, POLL,
    PROCESS_IOURING, READLINK_PATH, READ_SYNC, RENAME, SEEK, SETUP_IOURING, SET_VIEW, STAT,
    STAT_PATH, SYNC, TRUNCATE, UNLINK, UNMAP_PAGE, UNMOUNT, WRITE_SYNC,
};
use crate::protocol::FS_PROTO;
use vstd::string::StringSliceAdditionalSpecFns;

verus! {

/// Flags for opening a file, as their wire bits.
#[derive(Debug, Clone, Copy, PartialEq, Eq, Structural)]
pub struct OpenFlags(pub usize);

impl OpenFlags {
    /// The wire bits.
    pub fn bits(&self) -> (b: usize)
        ensures
            b == self.0,
    {
        self.0
    }
}

/// Client of a file system server; one client stands for one open handle
/// as well as for the name space.
#[derive(Debug, Clone, Copy, PartialEq, Eq, Structural)]
pub struct FsClient {
    endpoint: Endpoint,
}

/// A request that carries the bytes of `s` after the given registers.
pub open spec fn is_str_request(r: Result<Utcb, Error>, s: &str, label: usize, flags: usize, vals: Seq<usize>, recv: Option<CapPtr>) -> bool {
    &&& (s.spec_bytes().len() > IPC_BUFFER_SIZE <==> r is Err)
    &&& (r is Err ==> r == Err::<Utcb, Error>(Error::MessageTooLong))
    &&& (r is Ok ==> is_request(r->Ok_0, FS_PROTO, label, flags, vals, s.spec_bytes(), None, recv))
}

/// How a checked `ioctl` reply decodes: the result in register 0 and as
/// many output bytes as register 1 says, which must not exceed what was
/// asked for nor the IPC buffer; output bytes must come flagged as a
/// buffer.
pub open spec fn spec_ioctl_reply(reply: Utcb, out_len: usize) -> Result<(usize, Seq<u8>), Error> {
    let out_actual = reply.mr(1);
    if out_actual > IPC_BUFFER_SIZE || out_actual > out_len {
        Err(Error::InvalidArgs)
    } else if out_actual == 0 {
        Ok((reply.mr(0), Seq::empty()))
    } else if !spec_contains(reply.tag.flags.bits, FLAG_HAS_BUFFER) {
        Err(Error::Unknown)
    } else {
        Ok((reply.mr(0), spec_buffer_bytes(reply.buffer@, out_actual as int)))
    }
}

/// A request under `label` carrying the encoded pair of paths (`a`, `b`),
/// or `MessageTooLong` when the encoding does not fit.
pub open spec fn is_paths_request(r: Result<Utcb, Error>, label: usize, a: Seq<char>, b: Seq<char>) -> bool {
    let enc = spec_str(a) + spec_str(b);
    &&& (enc.len() > IPC_BUFFER_SIZE ==> r == Err::<Utcb, Error>(Error::MessageTooLong))
    &&& (enc.len() <= IPC_BUFFER_SIZE ==> r is Ok && is_request(r->Ok_0, FS_PROTO, label, FLAG_HAS_BUFFER, Seq::empty(), enc, None, None))
}

impl FsClient {
    /// The endpoint requests go to.
    pub closed spec fn ep(&self) -> Endpoint {
        self.endpoint
    }

    /// A client of the server at `endpoint`.
    pub fn new(endpoint: Endpoint) -> (c: FsClient)
        ensures
            c.ep() == endpoint,
    {
        FsClient { endpoint }
    }

    /// The endpoint requests go to.
    pub fn endpoint(&self) -> (e: Endpoint)
        ensures
            e == self.ep(),
    {
        self.endpoint
    }

    /// Pipes are not offered by this client.
    pub fn pipe(&mut self, _pid: Badge) -> (r: Result<(usize, usize), Error>)
        ensures
            r == Err::<(usize, usize), Error>(Error::NotImplemented),
            *final(self) == *old(self),
    {
        Err(Error::NotImplemented)
    }

    /// Request to open `path`, the handle to be received in `recv_slot`.
    pub fn open_request(&self, _pid: Badge, path: &str, flags: OpenFlags, mode: u32, recv_slot: CapPtr) -> (r: Result<Utcb, Error>)
        ensures
            is_str_request(r, path, OPEN, FLAG_HAS_BUFFER, seq![flags.0, mode as usize], Some(recv_slot)),
    {
        match Utcb::request_with_str(FS_PROTO, OPEN, MsgFlags::has_buffer(), vec![flags.bits(), mode as usize], path) {
            Ok(mut u) => {
                u.set_recv_window(recv_slot);
                Ok(u)
            },
            Err(e) => Err(e),
        }
    }

    /// Request to create the directory `path`.
    pub fn mkdir_request(&self, _pid: Badge, path: &str, mode: u32) -> (r: Result<Utcb, Error>)
        ensures
            is_str_request(r, path, MKDIR, FLAG_HAS_BUFFER, seq![mode as usize], None),
    {
        Utcb::request_with_str(FS_PROTO, MKDIR, MsgFlags::has_buffer(), vec![mode as usize], path)
    }

    /// Request to remove `path`.
    pub fn unlink_request(&self, _pid: Badge, path: &str) -> (r: Result<Utcb, Error>)
        ensures
            is_str_request(r, path, UNLINK, FLAG_HAS_BUFFER, Seq::empty(), None),
    {
        Utcb::request_with_str(FS_PROTO, UNLINK, MsgFlags::has_buffer(), vec![], path)
    }

    /// Request to rename `old_path` to `new_path`; the pair travels
    /// encoded.
    pub fn rename_request(&self, _pid: Badge, old_path: &str, new_path: &str) -> (r: Result<Utcb, Error>)
        ensures
            is_paths_request(r, RENAME, old_path@, new_path@),
    {
        let paths = encode_str_pair(old_path, new_path);
        Utcb::request_with_data(FS_PROTO, RENAME, MsgFlags::has_buffer(), vec![], paths.as_slice())
    }

    /// Request to link `new_path` to `old_path`; the pair travels encoded.
    pub fn link_request(&self, _pid: Badge, old_path: &str, new_path: &str) -> (r: Result<Utcb, Error>)
        ensures
            is_paths_request(r, LINK, old_path@, new_path@),
    {
        let paths = encode_str_pair(old_path, new_path);
        Utcb::request_with_data(FS_PROTO, LINK, MsgFlags::has_buffer(), vec![], paths.as_slice())
    }

    /// Request for the status of `path`.
    pub fn stat_path_request(&self, _pid: Badge, path: &str) -> (r: Result<Utcb, Error>)
        ensures
            is_str_request(r, path, STAT_PATH, FLAG_HAS_BUFFER, Seq::empty(), None),
    {
        Utcb::request_with_str(FS_PROTO, STAT_PATH, MsgFlags::has_buffer(), vec![], path)
    }

    /// Request for the status of `path`, not following a final link.
    pub fn lstat_path_request(&self, _pid: Badge, path: &str) -> (r: Result<Utcb, Error>)
        ensures
            is_str_request(r, path, LSTAT_PATH, FLAG_HAS_BUFFER, Seq::empty(), None),
    {
        Utcb::request_with_str(FS_PROTO, LSTAT_PATH, MsgFlags::has_buffer(), vec![], path)
    }

    /// Request for the target of the link `path`.
    pub fn readlink_path_request(&self, _pid: Badge, path: &str) -> (r: Result<Utcb, Error>)
        ensures
            is_str_request(r, path, READLINK_PATH, FLAG_HAS_BUFFER, Seq::empty(), None),
    {
        Utcb::request_with_str(FS_PROTO, READLINK_PATH, MsgFlags::has_buffer(), vec![], path)
    }

    /// Request to mount, at `path`, the file system whose endpoint was
    /// copied into the transfer slot.
    pub fn mount_request(&self, _pid: Badge, path: &str) -> (r: Result<Utcb, Error>)
        ensures
            s_len_refused(r, path),
            r is Ok ==> is_request(r->Ok_0, FS_PROTO, MOUNT, FLAG_HAS_BUFFER | FLAG_HAS_CAP, Seq::empty(), path.spec_bytes(), Some(CapPtr(RECV_SLOT)), Some(CapPtr(RECV_SLOT))),
    {
        match Utcb::request_with_str(FS_PROTO, MOUNT, MsgFlags::has_buffer().union(MsgFlags::has_cap()), vec![], path) {
            Ok(mut u) => {
                u.set_cap_transfer(CapPtr::from(RECV_SLOT));
                u.set_recv_window(CapPtr::from(RECV_SLOT));
                Ok(u)
            },
            Err(e) => Err(e),
        }
    }

    /// Request to unmount `path`.
    pub fn unmount_request(&self, _pid: Badge, path: &str) -> (r: Result<Utcb, Error>)
        ensures
            is_str_request(r, path, UNMOUNT, FLAG_HAS_BUFFER, Seq::empty(), None),
    {
        Utcb::request_with_str(FS_PROTO, UNMOUNT, MsgFlags::has_buffer(), vec![], path)
    }

    /// Request to create a view of the name space rooted at `root`.
    pub fn create_view_request(&self, _pid: Badge, root: &str) -> (r: Result<Utcb, Error>)
        ensures
            is_str_request(r, root, CREATE_VIEW, FLAG_HAS_BUFFER, Seq::empty(), None),
    {
        Utcb::request_with_str(FS_PROTO, CREATE_VIEW, MsgFlags::has_buffer(), vec![], root)
    }

    /// Request to switch to view `view_id`.
    pub fn set_view_request(&self, _pid: Badge, view_id: usize) -> (u: Utcb)
        ensures
            is_plain_request(u, FS_PROTO, SET_VIEW, 0, seq![view_id]),
    {
        Utcb::request(FS_PROTO, SET_VIEW, MsgFlags::none(), vec![view_id])
    }

    /// Request to read up to `buf_len` bytes at `offset`.
    pub fn read_request(&self, _pid: Badge, offset: usize, buf_len: usize) -> (u: Utcb)
        ensures
            is_plain_request(u, FS_PROTO, READ_SYNC, 0, seq![buf_len, offset]),
    {
        Utcb::request(FS_PROTO, READ_SYNC, MsgFlags::none(), vec![buf_len, offset])
    }

    /// Takes in a read reply: the length in register 0 must not exceed
    /// `buf` (else `InvalidArgs`, `buf` untouched); that many bytes of the
    /// reply's IPC buffer are copied to the front of `buf`.
    pub fn read_reply(reply: &Utcb, buf: &mut [u8]) -> (r: Result<usize, Error>)
        requires
            reply.mr(0) <= old(buf)@.len() ==> reply.mr(0) <= IPC_BUFFER_SIZE,
        ensures
            reply.mr(0) > old(buf)@.len() ==> r == Err::<usize, Error>(Error::InvalidArgs) && final(buf)@ == old(buf)@,
            reply.mr(0) <= old(buf)@.len() ==> r == Ok::<usize, Error>(reply.mr(0))
                && final(buf)@ == spec_buffer_bytes(reply.buffer@, reply.mr(0) as int) + old(buf)@.subrange(reply.mr(0) as int, old(buf)@.len() as int),
    {
        let len = reply.get_mr(0);
        if len > buf.len() {
            return Err(Error::InvalidArgs);
        }
        let bytes = reply.data(len);
        copy_prefix(buf, bytes.as_slice(), len);
        assert(bytes@.subrange(0, len as int) =~= bytes@);
        Ok(len)
    }

    /// Request to write `buf` at `offset`; as much of `buf` as the IPC
    /// buffer holds is sent.
    pub fn write_request(&self, _pid: Badge, offset: usize, buf: &[u8]) -> (u: Utcb)
        ensures
            is_request(u, FS_PROTO, WRITE_SYNC, FLAG_HAS_BUFFER, seq![offset], buf@.subrange(0, if buf@.len() < IPC_BUFFER_SIZE { buf@.len() as int } else { IPC_BUFFER_SIZE as int }), None, None),
    {
        let mut u = Utcb::request(FS_PROTO, WRITE_SYNC, MsgFlags::has_buffer(), vec![offset]);
        u.write(buf);
        u
    }

    /// Request to close the handle.
    pub fn close_request(&self, _pid: Badge) -> (u: Utcb)
        ensures
            is_plain_request(u, FS_PROTO, CLOSE, 0, Seq::empty()),
    {
        Utcb::request(FS_PROTO, CLOSE, MsgFlags::none(), vec![])
    }

    /// Request for the status of the handle.
    pub fn stat_request(&self, _pid: Badge) -> (u: Utcb)
        ensures
            is_plain_request(u, FS_PROTO, STAT, 0, Seq::empty()),
    {
        Utcb::request(FS_PROTO, STAT, MsgFlags::none(), vec![])
    }

    /// Request for up to `count` directory entries.
    pub fn getdents_request(&self, _pid: Badge, count: usize) -> (u: Utcb)
        ensures
            is_plain_request(u, FS_PROTO, GETDENTS, 0, seq![0, count]),
    {
        Utcb::request(FS_PROTO, GETDENTS, MsgFlags::none(), vec![0, count])
    }

    /// Request to move the handle's position; the signed offset travels as
    /// its two's-complement register value.
    pub fn seek_request(&self, _pid: Badge, offset: i64, whence: usize) -> (u: Utcb)
        ensures
            is_plain_request(u, FS_PROTO, SEEK, 0, seq![0, offset as usize, whence]),
    {
        Utcb::request(FS_PROTO, SEEK, MsgFlags::none(), vec![0, offset as usize, whence])
    }

    /// Request to flush the handle.
    pub fn sync_request(&self, _pid: Badge) -> (u: Utcb)
        ensures
            is_plain_request(u, FS_PROTO, SYNC, 0, Seq::empty()),
    {
        Utcb::request(FS_PROTO, SYNC, MsgFlags::none(), vec![])
    }

    /// Request to set the file's size.
    pub fn truncate_request(&self, _pid: Badge, size: usize) -> (u: Utcb)
        ensures
            is_plain_request(u, FS_PROTO, TRUNCATE, 0, seq![0, size]),
    {
        Utcb::request(FS_PROTO, TRUNCATE, MsgFlags::none(), vec![0, size])
    }

    /// Request to wait for `events` on the handle.
    pub fn poll_request(&self, _pid: Badge, events: u32) -> (u: Utcb)
        ensures
            is_plain_request(u, FS_PROTO, POLL, 0, seq![0, events as usize]),
    {
        Utcb::request(FS_PROTO, POLL, MsgFlags::none(), vec![0, events as usize])
    }

    /// The events ready, from register 0 cut to 32 bits.
    pub fn poll_reply(reply: &Utcb) -> (e: u32)
        ensures
            e == reply.mr(0) as u32,
    {
        reply.get_mr(0) as u32
    }

    /// Request for the device control `cmd` with argument `arg`, sending
    /// `input` and asking for up to `out_len` output bytes; refused with
    /// `InvalidArgs` when the input or the output would not fit the IPC
    /// buffer. The input travels as a buffer only when there is some.
    pub fn ioctl_ex_request(&self, _pid: Badge, cmd: u32, arg: usize, input: Option<&[u8]>, out_len: usize) -> (r: Result<Utcb, Error>)
        ensures
            ({
                let data = match input {
                    Some(d) => d@,
                    None => Seq::<u8>::empty(),
                };
                &&& (data.len() > IPC_BUFFER_SIZE || out_len > IPC_BUFFER_SIZE) ==> r == Err::<Utcb, Error>(Error::InvalidArgs)
                &&& (data.len() <= IPC_BUFFER_SIZE && out_len <= IPC_BUFFER_SIZE) ==> r is Ok && is_request(
                    r->Ok_0,
                    FS_PROTO,
                    IOCTL_EX,
                    if data.len() == 0 { 0 } else { FLAG_HAS_BUFFER },
                    seq![0, cmd as usize, arg, data.len() as usize, out_len],
                    data,
                    None,
                    None,
                )
            }),
    {
        if out_len > IPC_BUFFER_SIZE {
            return Err(Error::InvalidArgs);
        }
        match input {
            None => Ok(Utcb::request(FS_PROTO, IOCTL_EX, MsgFlags::none(), vec![0, cmd as usize, arg, 0, out_len])),
            Some(in_buf) => {
                if in_buf.len() > IPC_BUFFER_SIZE {
                    return Err(Error::InvalidArgs);
                }
                if in_buf.len() == 0 {
                    let u = Utcb::request(FS_PROTO, IOCTL_EX, MsgFlags::none(), vec![0, cmd as usize, arg, 0, out_len]);
                    assert(in_buf@ =~= Seq::<u8>::empty());
                    return Ok(u);
                }
                let mut u = Utcb::request(FS_PROTO, IOCTL_EX, MsgFlags::has_buffer(), vec![0, cmd as usize, arg, in_buf.len(), out_len]);
                let n = u.write(in_buf);
                assert(in_buf@.subrange(0, n as int) =~= in_buf@);
                Ok(u)
            },
        }
    }

    /// Decodes an `ioctl` reply as [`spec_ioctl_reply`] says.
    pub fn ioctl_ex_reply(reply: &Utcb, out_len: usize) -> (r: Result<(usize, Vec<u8>), Error>)
        ensures
            match spec_ioctl_reply(*reply, out_len) {
                Ok((ret, out)) => r is Ok && r->Ok_0.0 == ret && r->Ok_0.1@ == out,
                Err(e) => r == Err::<(usize, Vec<u8>), Error>(e),
            },
    {
        let ret = reply.get_mr(0);
        let out_actual = reply.get_mr(1);
        if out_actual > IPC_BUFFER_SIZE || out_actual > out_len {
            return Err(Error::InvalidArgs);
        }
        if out_actual == 0 {
            return Ok((ret, Vec::new()));
        }
        if !reply.get_msg_tag().flags().contains(MsgFlags::has_buffer()) {
            return Err(Error::Unknown);
        }
        let out = reply.data(out_actual);
        Ok((ret, out))
    }

    /// `ioctl` without input or output: the same request with an empty
    /// input and no output.
    pub fn ioctl_request(&self, pid: Badge, cmd: u32, arg: usize) -> (u: Utcb)
        ensures
            is_plain_request(u, FS_PROTO, IOCTL_EX, 0, seq![0, cmd as usize, arg, 0, 0]),
    {
        Utcb::request(FS_PROTO, IOCTL_EX, MsgFlags::none(), vec![0, cmd as usize, arg, 0, 0])
    }

    /// Request to set up a submission ring of `size` bytes at
    /// `client_vaddr`; when a frame backs it, the frame (copied into the
    /// transfer slot) travels with the request.
    pub fn setup_iouring_request(&self, _pid: Badge, client_vaddr: usize, size: usize, frame: Option<Page>) -> (u: Utcb)
        ensures
            frame is Some ==> is_request(u, FS_PROTO, SETUP_IOURING, FLAG_HAS_CAP, seq![size, client_vaddr], Seq::empty(), Some(CapPtr(RECV_SLOT)), Some(CapPtr(RECV_SLOT))),
            frame is None ==> is_plain_request(u, FS_PROTO, SETUP_IOURING, 0, seq![size, client_vaddr]),
    {
        match frame {
            Some(_) => {
                let mut u = Utcb::request(FS_PROTO, SETUP_IOURING, MsgFlags::has_cap(), vec![size, client_vaddr]);
                u.set_cap_transfer(CapPtr::from(RECV_SLOT));
                u.set_recv_window(CapPtr::from(RECV_SLOT));
                u
            },
            None => Utcb::request(FS_PROTO, SETUP_IOURING, MsgFlags::none(), vec![size, client_vaddr]),
        }
    }

    /// Request to process the submitted ring entries.
    pub fn process_iouring_request(&self) -> (u: Utcb)
        ensures
            is_plain_request(u, FS_PROTO, PROCESS_IOURING, 0, Seq::empty()),
    {
        Utcb::request(FS_PROTO, PROCESS_IOURING, MsgFlags::none(), vec![])
    }

    /// Request to map `pages` pages of the file at `offset`, received in
    /// `recv_slot`; refused with `InvalidArgs` for zero pages.
    pub fn map_pages_request(&self, _pid: Badge, offset: usize, pages: usize, recv_slot: CapPtr) -> (r: Result<Utcb, Error>)
        ensures
            pages == 0 ==> r == Err::<Utcb, Error>(Error::InvalidArgs),
            pages != 0 ==> r is Ok && is_request(r->Ok_0, FS_PROTO, MAP_PAGE, 0, seq![offset, pages], Seq::empty(), None, Some(recv_slot)),
    {
        if pages == 0 {
            return Err(Error::InvalidArgs);
        }
        let mut u = Utcb::request(FS_PROTO, MAP_PAGE, MsgFlags::none(), vec![offset, pages]);
        u.set_recv_window(recv_slot);
        Ok(u)
    }

    /// Request to map one page of the file at `offset`.
    pub fn map_page_request(&self, pid: Badge, offset: usize, recv_slot: CapPtr) -> (u: Utcb)
        ensures
            is_request(u, FS_PROTO, MAP_PAGE, 0, seq![offset, 1], Seq::empty(), None, Some(recv_slot)),
    {
        match self.map_pages_request(pid, offset, 1, recv_slot) {
            Ok(u) => u,
            Err(_) => Utcb::new(),
        }
    }

    /// Request to unmap the page that was copied into the transfer slot.
    pub fn unmap_page_request(&self, _pid: Badge) -> (u: Utcb)
        ensures
            is_request(u, FS_PROTO, UNMAP_PAGE, FLAG_HAS_CAP, Seq::empty(), Seq::empty(), Some(CapPtr(RECV_SLOT)), Some(CapPtr(RECV_SLOT))),
    {
        let mut u = Utcb::request(FS_PROTO, UNMAP_PAGE, MsgFlags::has_cap(), vec![]);
        u.set_cap_transfer(CapPtr::from(RECV_SLOT));
        u.set_recv_window(CapPtr::from(RECV_SLOT));
        u
    }
}

/// A string request is refused, with `MessageTooLong`, exactly when the
/// string does not fit the IPC buffer.
pub open spec fn s_len_refused(r: Result<Utcb, Error>, s: &str) -> bool {
    &&& (s.spec_bytes().len() > IPC_BUFFER_SIZE <==> r is Err)
    &&& (r is Err ==> r == Err::<Utcb, Error>(Error::MessageTooLong))
}

/// How an `ioctl` reply is taken in: when the server announces no more
/// output bytes than were asked for and the IPC buffer holds, the call
/// succeeds with the result register and exactly that many output bytes,
/// the reply's data first (none at all when it announces none); it is
/// refused with `InvalidArgs` exactly when it announces more, and with
/// `Unknown` when it announces output without sending a buffer.
pub proof fn lemma_ioctl_reply_accepts(reply: Utcb, out_len: usize)
    ensures
        (reply.mr(1) <= out_len && reply.mr(1) <= IPC_BUFFER_SIZE && reply.mr(1) == 0)
            ==> spec_ioctl_reply(reply, out_len) == Ok::<(usize, Seq<u8>), Error>((reply.mr(0), Seq::empty())),
        (reply.mr(1) <= out_len && reply.mr(1) <= IPC_BUFFER_SIZE && reply.mr(1) > 0
            && spec_contains(reply.tag.flags.bits, FLAG_HAS_BUFFER)) ==> ({
                let r = spec_ioctl_reply(reply, out_len);
                &&& r is Ok
                &&& r->Ok_0.0 == reply.mr(0)
                &&& r->Ok_0.1.len() == reply.mr(1)
                &&& forall|i: int| 0 <= i < reply.mr(1) && i < reply.buffer@.len() ==> #[trigger] r->Ok_0.1[i] == reply.buffer@[i]
            }),
        (reply.mr(1) > out_len || reply.mr(1) > IPC_BUFFER_SIZE)
            ==> spec_ioctl_reply(reply, out_len) == Err::<(usize, Seq<u8>), Error>(Error::InvalidArgs),
        (reply.mr(1) <= out_len && reply.mr(1) <= IPC_BUFFER_SIZE && reply.mr(1) > 0
            && !spec_contains(reply.tag.flags.bits, FLAG_HAS_BUFFER))
            ==> spec_ioctl_reply(reply, out_len) == Err::<(usize, Seq<u8>), Error>(Error::Unknown),
{
}

} // verus!
