use vstd::prelude::*;
use crate::bytes::{fixed_1024, fixed_256, zero_padded};
use crate::cap::{CapPtr, Endpoint, RECV_SLOT};
use crate::encoding::{encode_str_pair, spec_str};
use crate::error::Error;
use crate::ipc::{is_plain_request, is_request, MsgFlags, Utcb, FLAG_HAS_BUFFER, FLAG_HAS_CAP, IPC_BUFFER_SIZE};
use crate::protocol::auth::{
    IdentityInfo, PermissionDecision, PolicyBackendStatus, PolicyRule, AUTH_RPC, CHECK_PERMISSION,
    CLEAR_POLICY_BACKEND, DELETE_POLICY, GET_IDENTITY, GET_POLICY_BACKEND_STATUS, GET_TICKET,
    LOGOUT, NEGOTIATE, PROXY_CALL, SET_IDENTITY, SET_POLICY_BACKEND, UPSERT_POLICY,
    VALIDATE_TICKET,
};
use crate::protocol::AUTH_PROTO;
use crate::wire::{lemma_u32_le_round_trip, push_u32_le, read_u32_le, spec_le_u32, spec_u32_le};
use vstd::string::StringSliceAdditionalSpecFns;

verus! {

/// Encoded size of an identity record.
pub const IDENTITY_INFO_SIZE: usize = 16;
/// Encoded size of a permission decision or a backend status.
pub const DECISION_SIZE: usize = 8;

/// Client of the authentication service.
#[derive(Debug, Clone, Copy, PartialEq, Eq, Structural)]
pub struct AuthClient {
    endpoint: Endpoint,
}

/// A protocol version packed into one register: major in bits 16 and up,
/// minor in the low 16 bits.
pub open spec fn spec_pack_version(major: u16, minor: u16) -> usize {
    ((major as usize) << 16usize) | (minor as usize)
}

/// The (major, minor) version a packed register holds: bits 16-31 and
/// bits 0-15.
pub open spec fn spec_unpack_version(packed: usize) -> (u16, u16) {
    (((packed >> 16usize) & 0xffff) as u16, (packed & 0xffff) as u16)
}

/// The bytes an identity record is sent as.
pub open spec fn spec_identity_bytes(id: IdentityInfo) -> Seq<u8> {
    spec_u32_le(id.uid) + spec_u32_le(id.gid) + spec_u32_le(id.euid) + spec_u32_le(id.egid)
}

/// The identity record held in the first bytes of `b`.
pub open spec fn spec_identity_from_bytes(b: Seq<u8>) -> IdentityInfo {
    IdentityInfo {
        uid: spec_le_u32(b, 0),
        gid: spec_le_u32(b, 4),
        euid: spec_le_u32(b, 8),
        egid: spec_le_u32(b, 12),
    }
}

/// The identity a reply carries: decoded from the buffer when it holds a
/// whole record, else taken from registers 0-3 cut to 32 bits.
pub open spec fn spec_identity_reply(reply: Utcb) -> IdentityInfo {
    if reply.buffer@.len() >= IDENTITY_INFO_SIZE {
        spec_identity_from_bytes(reply.buffer@)
    } else {
        IdentityInfo {
            uid: reply.mr(0) as u32,
            gid: reply.mr(1) as u32,
            euid: reply.mr(2) as u32,
            egid: reply.mr(3) as u32,
        }
    }
}

/// The (flag, 32-bit value) pair a decision-like reply carries: bytes 0
/// and 4-7 of the buffer when it holds a whole record, else register 0
/// reduced to 0 or 1 and register 1 cut to 32 bits.
pub open spec fn spec_decision_reply(reply: Utcb) -> (u8, u32) {
    if reply.buffer@.len() >= DECISION_SIZE {
        (reply.buffer@[0], spec_le_u32(reply.buffer@, 4))
    } else {
        (if reply.mr(0) == 0 { 0u8 } else { 1u8 }, reply.mr(1) as u32)
    }
}

/// A request under `label` with registers `vals` carrying the encoded pair
/// (`a`, `b`), or `MessageTooLong` when the encoding does not fit.
pub open spec fn is_pair_request(r: Result<Utcb, Error>, label: usize, vals: Seq<usize>, a: Seq<char>, b: Seq<char>) -> bool {
    let enc = spec_str(a) + spec_str(b);
    &&& (enc.len() > IPC_BUFFER_SIZE ==> r == Err::<Utcb, Error>(Error::MessageTooLong))
    &&& (enc.len() <= IPC_BUFFER_SIZE ==> r is Ok && is_request(r->Ok_0, AUTH_PROTO, label, FLAG_HAS_BUFFER, vals, enc, None, None))
}

impl AuthClient {
    /// The endpoint requests go to.
    pub closed spec fn ep(&self) -> Endpoint {
        self.endpoint
    }

    /// A client of the service at `endpoint`.
    pub fn new(endpoint: Endpoint) -> (c: AuthClient)
        ensures
            c.ep() == endpoint,
    {
        AuthClient { endpoint }
    }

    /// The endpoint requests go to.
    pub fn endpoint(&self) -> (e: Endpoint)
        ensures
            e == self.ep(),
    {
        self.endpoint
    }

    /// Packs a protocol version into one register.
    pub fn pack_version(major: u16, minor: u16) -> (p: usize)
        ensures
            p == spec_pack_version(major, minor),
    {
        ((major as usize) << 16usize) | (minor as usize)
    }

    /// Unpacks a protocol version from one register.
    pub fn unpack_version(packed: usize) -> (v: (u16, u16))
        ensures
            v == spec_unpack_version(packed),
    {
        (((packed >> 16usize) & 0xffff) as u16, (packed & 0xffff) as u16)
    }

    /// Request to negotiate the protocol version and feature flags.
    pub fn negotiate_request(&self, major: u16, minor: u16, flags: u32) -> (u: Utcb)
        ensures
            is_plain_request(u, AUTH_PROTO, NEGOTIATE, 0, seq![spec_pack_version(major, minor), flags as usize]),
    {
        Utcb::request(AUTH_PROTO, NEGOTIATE, MsgFlags::none(), vec![Self::pack_version(major, minor), flags as usize])
    }

    /// The negotiated version (register 0) and flags (register 1, cut to 32
    /// bits).
    pub fn negotiate_reply(reply: &Utcb) -> (r: (u16, u16, u32))
        ensures
            r == (spec_unpack_version(reply.mr(0)).0, spec_unpack_version(reply.mr(0)).1, reply.mr(1) as u32),
    {
        let (major, minor) = Self::unpack_version(reply.get_mr(0));
        (major, minor, reply.get_mr(1) as u32)
    }

    /// Request for the identity of `subject`.
    pub fn get_identity_request(&self, subject: usize) -> (u: Utcb)
        ensures
            is_plain_request(u, AUTH_PROTO, GET_IDENTITY, 0, seq![subject]),
    {
        Utcb::request(AUTH_PROTO, GET_IDENTITY, MsgFlags::none(), vec![subject])
    }

    /// Decodes an identity reply as [`spec_identity_reply`] says.
    pub fn get_identity_reply(reply: &Utcb) -> (id: IdentityInfo)
        ensures
            id == spec_identity_reply(*reply),
    {
        if reply.buffer.len() >= IDENTITY_INFO_SIZE {
            let b = reply.buffer.as_slice();
            IdentityInfo {
                uid: read_u32_le(b, 0),
                gid: read_u32_le(b, 4),
                euid: read_u32_le(b, 8),
                egid: read_u32_le(b, 12),
            }
        } else {
            IdentityInfo {
                uid: reply.get_mr(0) as u32,
                gid: reply.get_mr(1) as u32,
                euid: reply.get_mr(2) as u32,
                egid: reply.get_mr(3) as u32,
            }
        }
    }

    /// The bytes an identity record is sent as.
    pub fn encode_identity(id: &IdentityInfo) -> (b: Vec<u8>)
        ensures
            b@ == spec_identity_bytes(*id),
    {
        let mut b: Vec<u8> = Vec::new();
        push_u32_le(&mut b, id.uid);
        push_u32_le(&mut b, id.gid);
        push_u32_le(&mut b, id.euid);
        push_u32_le(&mut b, id.egid);
        assert(b@ =~= spec_identity_bytes(*id));
        b
    }

    /// Request to set the identity of `subject`.
    pub fn set_identity_request(&self, subject: usize, identity: IdentityInfo) -> (u: Utcb)
        ensures
            is_request(u, AUTH_PROTO, SET_IDENTITY, FLAG_HAS_BUFFER, seq![subject], spec_identity_bytes(identity), None, None),
    {
        let bytes = Self::encode_identity(&identity);
        let mut u = Utcb::request(AUTH_PROTO, SET_IDENTITY, MsgFlags::has_buffer(), vec![subject]);
        let n = u.write(bytes.as_slice());
        assert(bytes@.subrange(0, n as int) =~= bytes@);
        u
    }

    /// Request to check whether `subject` may perform `operation` on
    /// `resource`; the pair travels encoded.
    pub fn check_permission_request(&self, subject: usize, resource: &str, operation: &str) -> (r: Result<Utcb, Error>)
        ensures
            is_pair_request(r, CHECK_PERMISSION, seq![subject], resource@, operation@),
    {
        let query = encode_str_pair(resource, operation);
        Utcb::request_with_data(AUTH_PROTO, CHECK_PERMISSION, MsgFlags::has_buffer(), vec![subject], query.as_slice())
    }

    /// Decodes a permission decision as [`spec_decision_reply`] says.
    pub fn check_permission_reply(reply: &Utcb) -> (d: PermissionDecision)
        ensures
            (d.allowed, d.ttl_ms) == spec_decision_reply(*reply),
            reply.buffer@.len() < DECISION_SIZE ==> d.reserved@ == seq![0u8, 0u8, 0u8],
            reply.buffer@.len() >= DECISION_SIZE ==> d.reserved@ == reply.buffer@.subrange(1, 4),
    {
        if reply.buffer.len() >= DECISION_SIZE {
            let b = reply.buffer.as_slice();
            let d = PermissionDecision { allowed: b[0], reserved: [b[1], b[2], b[3]], ttl_ms: read_u32_le(b, 4) };
            assert(d.reserved@ =~= reply.buffer@.subrange(1, 4));
            d
        } else {
            let r = PermissionDecision {
                allowed: if reply.get_mr(0) == 0 { 0 } else { 1 },
                reserved: [0; 3],
                ttl_ms: reply.get_mr(1) as u32,
            };
            assert(r.reserved@ =~= seq![0u8, 0u8, 0u8]);
            r
        }
    }

    /// Request to add or replace the policy rule `policy` for `operation`
    /// on `resource`; the pair travels encoded.
    pub fn upsert_policy_request(&self, policy: PolicyRule, resource: &str, operation: &str) -> (r: Result<Utcb, Error>)
        ensures
            is_pair_request(r, UPSERT_POLICY, seq![policy.subject as usize, policy.effect as usize, policy.ttl_ms as usize], resource@, operation@),
    {
        let target = encode_str_pair(resource, operation);
        Utcb::request_with_data(AUTH_PROTO, UPSERT_POLICY, MsgFlags::has_buffer(), vec![policy.subject as usize, policy.effect as usize, policy.ttl_ms as usize], target.as_slice())
    }

    /// Request to delete the policy of `subject` for `operation` on
    /// `resource`; the pair travels encoded.
    pub fn delete_policy_request(&self, subject: usize, resource: &str, operation: &str) -> (r: Result<Utcb, Error>)
        ensures
            is_pair_request(r, DELETE_POLICY, seq![subject], resource@, operation@),
    {
        let target = encode_str_pair(resource, operation);
        Utcb::request_with_data(AUTH_PROTO, DELETE_POLICY, MsgFlags::has_buffer(), vec![subject], target.as_slice())
    }

    /// Request to attach the policy backend whose endpoint was copied into
    /// the transfer slot.
    pub fn set_policy_backend_request(&self) -> (u: Utcb)
        ensures
            is_request(u, AUTH_PROTO, SET_POLICY_BACKEND, FLAG_HAS_CAP, Seq::empty(), Seq::empty(), Some(CapPtr(RECV_SLOT)), Some(CapPtr(RECV_SLOT))),
    {
        let mut u = Utcb::request(AUTH_PROTO, SET_POLICY_BACKEND, MsgFlags::has_cap(), vec![]);
        u.set_cap_transfer(CapPtr::from(RECV_SLOT));
        u.set_recv_window(CapPtr::from(RECV_SLOT));
        u
    }

    /// Request to detach the policy backend.
    pub fn clear_policy_backend_request(&self) -> (u: Utcb)
        ensures
            is_plain_request(u, AUTH_PROTO, CLEAR_POLICY_BACKEND, 0, Seq::empty()),
    {
        Utcb::request(AUTH_PROTO, CLEAR_POLICY_BACKEND, MsgFlags::none(), vec![])
    }

    /// Request for the policy backend status.
    pub fn get_policy_backend_status_request(&self) -> (u: Utcb)
        ensures
            is_plain_request(u, AUTH_PROTO, GET_POLICY_BACKEND_STATUS, 0, Seq::empty()),
    {
        Utcb::request(AUTH_PROTO, GET_POLICY_BACKEND_STATUS, MsgFlags::none(), vec![])
    }

    /// Decodes a backend status as [`spec_decision_reply`] says.
    pub fn get_policy_backend_status_reply(reply: &Utcb) -> (s: PolicyBackendStatus)
        ensures
            (s.external_attached, s.generation) == spec_decision_reply(*reply),
            reply.buffer@.len() < DECISION_SIZE ==> s.reserved@ == seq![0u8, 0u8, 0u8],
            reply.buffer@.len() >= DECISION_SIZE ==> s.reserved@ == reply.buffer@.subrange(1, 4),
    {
        if reply.buffer.len() >= DECISION_SIZE {
            let b = reply.buffer.as_slice();
            let st = PolicyBackendStatus { external_attached: b[0], reserved: [b[1], b[2], b[3]], generation: read_u32_le(b, 4) };
            assert(st.reserved@ =~= reply.buffer@.subrange(1, 4));
            st
        } else {
            let r = PolicyBackendStatus {
                external_attached: if reply.get_mr(0) == 0 { 0 } else { 1 },
                reserved: [0; 3],
                generation: reply.get_mr(1) as u32,
            };
            assert(r.reserved@ =~= seq![0u8, 0u8, 0u8]);
            r
        }
    }

    /// Request for a ticket for `service`.
    pub fn get_ticket_request(&self, service: &str) -> (r: Result<Utcb, Error>)
        ensures
            service.spec_bytes().len() > IPC_BUFFER_SIZE ==> r == Err::<Utcb, Error>(Error::MessageTooLong),
            service.spec_bytes().len() <= IPC_BUFFER_SIZE ==> r is Ok && is_request(r->Ok_0, AUTH_PROTO, GET_TICKET, FLAG_HAS_BUFFER, seq![service.spec_bytes().len() as usize], service.spec_bytes(), None, None),
    {
        Utcb::request_with_str(AUTH_PROTO, GET_TICKET, MsgFlags::has_buffer(), vec![service.len()], service)
    }

    /// The ticket: the reply's data, cut or zero-padded to 256 bytes.
    pub fn get_ticket_reply(reply: &Utcb) -> (t: [u8; 256])
        ensures
            t@ == zero_padded(reply.buffer@, if reply.buffer@.len() < 256 { reply.buffer@.len() as int } else { 256 }, 256),
    {
        fixed_256(reply.buffer.as_slice())
    }

    /// Request to validate a ticket (sent as far as it fits).
    pub fn validate_ticket_request(&self, ticket: &[u8]) -> (u: Utcb)
        ensures
            is_request(u, AUTH_PROTO, VALIDATE_TICKET, FLAG_HAS_BUFFER, Seq::empty(), ticket@.subrange(0, if ticket@.len() < IPC_BUFFER_SIZE { ticket@.len() as int } else { IPC_BUFFER_SIZE as int }), None, None),
    {
        let mut u = Utcb::request(AUTH_PROTO, VALIDATE_TICKET, MsgFlags::has_buffer(), vec![]);
        u.write(ticket);
        u
    }

    /// Whether the ticket is valid: register 0 is not zero.
    pub fn validate_ticket_reply(reply: &Utcb) -> (b: bool)
        ensures
            b == (reply.mr(0) != 0),
    {
        reply.get_mr(0) != 0
    }

    /// Request to log out.
    pub fn logout_request(&self) -> (u: Utcb)
        ensures
            is_plain_request(u, AUTH_PROTO, LOGOUT, 0, Seq::empty()),
    {
        Utcb::request(AUTH_PROTO, LOGOUT, MsgFlags::none(), vec![])
    }

    /// Request carrying an opaque authentication message (sent as far as
    /// it fits) with its full length in register 0.
    pub fn auth_rpc_request(&self, data: &[u8]) -> (u: Utcb)
        ensures
            is_request(u, AUTH_PROTO, AUTH_RPC, FLAG_HAS_BUFFER, seq![data@.len() as usize], data@.subrange(0, if data@.len() < IPC_BUFFER_SIZE { data@.len() as int } else { IPC_BUFFER_SIZE as int }), None, None),
    {
        let mut u = Utcb::request(AUTH_PROTO, AUTH_RPC, MsgFlags::has_buffer(), vec![data.len()]);
        u.write(data);
        u
    }

    /// A 1024-byte response block: the reply's data, cut or zero-padded.
    pub fn response_block(reply: &Utcb) -> (out: [u8; 1024])
        ensures
            out@ == zero_padded(reply.buffer@, if reply.buffer@.len() < 1024 { reply.buffer@.len() as int } else { 1024 }, 1024),
    {
        fixed_1024(reply.buffer.as_slice())
    }

    /// Request to call `target_cap` on the caller's behalf with the given
    /// label, protocol and payload (sent as far as it fits).
    pub fn proxy_call_request(&self, target_cap: usize, label: usize, proto: usize, payload: &[u8]) -> (u: Utcb)
        ensures
            is_request(u, AUTH_PROTO, PROXY_CALL, FLAG_HAS_BUFFER, seq![target_cap, label, proto], payload@.subrange(0, if payload@.len() < IPC_BUFFER_SIZE { payload@.len() as int } else { IPC_BUFFER_SIZE as int }), None, None),
    {
        let mut u = Utcb::request(AUTH_PROTO, PROXY_CALL, MsgFlags::has_buffer(), vec![target_cap, label, proto]);
        u.write(payload);
        u
    }
}

/// Unpacking a packed version gives back the version.
pub proof fn lemma_version_round_trip(major: u16, minor: u16)
    ensures
        spec_unpack_version(spec_pack_version(major, minor)) == (major, minor),
{
    let p = spec_pack_version(major, minor);
    assert((((((major as usize) << 16usize) | (minor as usize)) >> 16usize) & 0xffff) as u16 == major) by (bit_vector);
    assert(((((major as usize) << 16usize) | (minor as usize)) & 0xffff) as u16 == minor) by (bit_vector);
}

/// An identity record sent by `set_identity` decodes, on the server side,
/// to the same record.
pub proof fn lemma_identity_round_trip(id: IdentityInfo)
    ensures
        spec_identity_from_bytes(spec_identity_bytes(id)) == id,
{
    let e = Seq::<u8>::empty();
    let b = spec_identity_bytes(id);
    lemma_u32_le_round_trip(id.uid, e, spec_u32_le(id.gid) + spec_u32_le(id.euid) + spec_u32_le(id.egid));
    assert(b =~= e + spec_u32_le(id.uid) + (spec_u32_le(id.gid) + spec_u32_le(id.euid) + spec_u32_le(id.egid)));
    lemma_u32_le_round_trip(id.gid, spec_u32_le(id.uid), spec_u32_le(id.euid) + spec_u32_le(id.egid));
    assert(b =~= spec_u32_le(id.uid) + spec_u32_le(id.gid) + (spec_u32_le(id.euid) + spec_u32_le(id.egid)));
    lemma_u32_le_round_trip(id.euid, spec_u32_le(id.uid) + spec_u32_le(id.gid), spec_u32_le(id.egid));
    assert(b =~= (spec_u32_le(id.uid) + spec_u32_le(id.gid)) + spec_u32_le(id.euid) + spec_u32_le(id.egid));
    lemma_u32_le_round_trip(id.egid, spec_u32_le(id.uid) + spec_u32_le(id.gid) + spec_u32_le(id.euid), Seq::empty());
    assert(b =~= (spec_u32_le(id.uid) + spec_u32_le(id.gid) + spec_u32_le(id.euid)) + spec_u32_le(id.egid) + Seq::<u8>::empty());
}

/// The identity record's fixed layout: uid, gid, euid and egid as
/// consecutive little-endian 32-bit words at offsets 0, 4, 8 and 12, both
/// in the bytes `set_identity` sends and in the bytes a reply is read from.
pub proof fn lemma_identity_layout(id: IdentityInfo, b: Seq<u8>)
    requires
        b.len() >= IDENTITY_INFO_SIZE,
    ensures
        spec_identity_bytes(id).len() == IDENTITY_INFO_SIZE,
        spec_identity_bytes(id).subrange(0, 4) == spec_u32_le(id.uid),
        spec_identity_bytes(id).subrange(4, 8) == spec_u32_le(id.gid),
        spec_identity_bytes(id).subrange(8, 12) == spec_u32_le(id.euid),
        spec_identity_bytes(id).subrange(12, 16) == spec_u32_le(id.egid),
        spec_identity_from_bytes(b).uid == spec_le_u32(b.subrange(0, 4), 0),
        spec_identity_from_bytes(b).gid == spec_le_u32(b.subrange(4, 8), 0),
        spec_identity_from_bytes(b).euid == spec_le_u32(b.subrange(8, 12), 0),
        spec_identity_from_bytes(b).egid == spec_le_u32(b.subrange(12, 16), 0),
{
    let e = spec_identity_bytes(id);
    assert(e.subrange(0, 4) =~= spec_u32_le(id.uid));
    assert(e.subrange(4, 8) =~= spec_u32_le(id.gid));
    assert(e.subrange(8, 12) =~= spec_u32_le(id.euid));
    assert(e.subrange(12, 16) =~= spec_u32_le(id.egid));
}

} // verus!
