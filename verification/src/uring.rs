use vstd::prelude::*;
use crate::cap::{CapPtr, Endpoint};
use crate::error::Error;

verus! {

/// Operation code: no operation.
pub const IOURING_OP_NOP: u8 = 0;
/// Operation code: read into a buffer.
pub const IOURING_OP_READ: u8 = 1;
/// Operation code: write from a buffer.
pub const IOURING_OP_WRITE: u8 = 2;
/// Operation code: flush pending writes.
pub const IOURING_OP_SYNC: u8 = 3;
/// Submission flag: the request completes more than once.
pub const IOSQE_MULTISHOT: u8 = 1;

/// A submission queue entry.
#[derive(Debug, Clone, Copy, PartialEq, Eq, Structural)]
pub struct IoUringSqe {
    pub opcode: u8,
    pub flags: u8,
    pub off: u64,
    pub addr: u64,
    pub len: u32,
    pub user_data: u64,
}

impl Default for IoUringSqe {
    fn default() -> (s: IoUringSqe)
        ensures
            s == spec_empty_sqe(),
    {
        IoUringSqe { opcode: 0, flags: 0, off: 0, addr: 0, len: 0, user_data: 0 }
    }
}

/// The entry whose fields are all zero.
pub open spec fn spec_empty_sqe() -> IoUringSqe {
    IoUringSqe { opcode: 0, flags: 0, off: 0, addr: 0, len: 0, user_data: 0 }
}

/// A completion queue entry: the request's user data and its result
/// (negative on failure).
#[derive(Debug, Clone, Copy, PartialEq, Eq, Structural)]
pub struct IoUringCqe {
    pub user_data: u64,
    pub res: i32,
    pub flags: u32,
}

/// What a client asks of a server when it sets up a ring.
#[derive(Debug, Clone, Copy, PartialEq, Eq, Structural)]
pub struct RingParams {
    pub sq_entries: usize,
    pub cq_entries: usize,
    pub notify_ep: Endpoint,
    pub recv_slot: CapPtr,
    pub vaddr: usize,
    pub size: usize,
}

impl RingParams {
    /// Parameters that set up nothing.
    pub open spec fn spec_empty() -> RingParams {
        RingParams {
            sq_entries: 0,
            cq_entries: 0,
            notify_ep: Endpoint(CapPtr(0)),
            recv_slot: CapPtr(0),
            vaddr: 0,
            size: 0,
        }
    }

    /// Parameters that set up nothing: no entries, null slots, no memory.
    pub fn empty() -> (p: RingParams)
        ensures
            p == RingParams::spec_empty(),
    {
        RingParams {
            sq_entries: 0,
            cq_entries: 0,
            notify_ep: Endpoint(CapPtr(0)),
            recv_slot: CapPtr(0),
            vaddr: 0,
            size: 0,
        }
    }
}

/// The client side of a ring mapped at `vaddr`: where it lies, how many
/// entries each queue has and which endpoint to notify on submission.
#[derive(Debug, Clone, Copy, PartialEq, Eq, Structural)]
pub struct IoUringClient {
    pub vaddr: usize,
    pub size: usize,
    pub sq_entries: u32,
    pub cq_entries: u32,
    pub server_notify: Option<Endpoint>,
}

impl IoUringClient {
    /// The ring laid out in `size` bytes at `vaddr`.
    pub fn new(vaddr: usize, size: usize, sq_entries: u32, cq_entries: u32) -> (r: IoUringClient)
        ensures
            r.vaddr == vaddr,
            r.size == size,
            r.sq_entries == sq_entries,
            r.cq_entries == cq_entries,
            r.server_notify is None,
    {
        IoUringClient { vaddr, size, sq_entries, cq_entries, server_notify: None }
    }

    /// Names the endpoint to notify after submitting.
    pub fn set_server_notify(&mut self, ep: Endpoint)
        ensures
            *final(self) == (IoUringClient { server_notify: Some(ep), ..*old(self) }),
    {
        self.server_notify = Some(ep);
    }
}

/// How a blocking wait for request `id` goes on after one completion was
/// popped (or none was): `None` to keep waiting, otherwise the outcome.
pub open spec fn spec_wait_step(id: u64, popped: Option<IoUringCqe>) -> Option<Result<(), Error>> {
    match popped {
        Some(cqe) => if cqe.user_data == id {
            if cqe.res < 0 {
                Some(Err(Error::Generic))
            } else {
                Some(Ok(()))
            }
        } else {
            None
        },
        None => None,
    }
}

/// One step of a blocking wait for request `id`: a completion for another
/// request is dropped and the wait goes on; the completion for `id` ends
/// it, with `Generic` when its result is negative.
pub fn wait_step(id: u64, popped: Option<IoUringCqe>) -> (r: Option<Result<(), Error>>)
    ensures
        r == spec_wait_step(id, popped),
{
    match popped {
        Some(cqe) => {
            if cqe.user_data == id {
                if cqe.res < 0 {
                    Some(Err(Error::Generic))
                } else {
                    Some(Ok(()))
                }
            } else {
                None
            }
        },
        None => None,
    }
}

/// A wait ends only on the completion of the awaited request, and it ends
/// in success exactly when that completion's result is not negative.
pub proof fn lemma_wait_ends_only_on_own_completion(id: u64, popped: Option<IoUringCqe>)
    ensures
        spec_wait_step(id, popped) is Some <==> (popped is Some && popped->0.user_data == id),
        spec_wait_step(id, popped) == Some(Ok::<(), Error>(())) <==> (popped is Some
            && popped->0.user_data == id && popped->0.res >= 0),
{
}

} // verus!
