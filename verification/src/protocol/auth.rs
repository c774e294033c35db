//! Authentication service: operation labels.

use vstd::prelude::*;

verus! {

pub const NEGOTIATE: usize = 1;
pub const GET_IDENTITY: usize = 2;
pub const SET_IDENTITY: usize = 3;
pub const CHECK_PERMISSION: usize = 4;
pub const UPSERT_POLICY: usize = 5;
pub const DELETE_POLICY: usize = 6;
pub const SET_POLICY_BACKEND: usize = 7;
pub const CLEAR_POLICY_BACKEND: usize = 8;
pub const GET_POLICY_BACKEND_STATUS: usize = 9;
pub const GET_TICKET: usize = 10;
pub const VALIDATE_TICKET: usize = 11;
pub const LOGOUT: usize = 12;
pub const AUTH_RPC: usize = 13;
pub const PROXY_CALL: usize = 14;

/// Who a subject is: user and group, real and effective.
#[derive(Debug, Clone, Copy, PartialEq, Eq, Structural)]
pub struct IdentityInfo {
    pub uid: u32,
    pub gid: u32,
    pub euid: u32,
    pub egid: u32,
}

/// The answer to a permission check: allowed (1) or not (0), and how
/// long the answer may be cached.
#[derive(Debug, Clone, Copy)]
pub struct PermissionDecision {
    pub allowed: u8,
    pub reserved: [u8; 3],
    pub ttl_ms: u32,
}

/// Whether an external policy backend is attached, and the policy
/// generation.
#[derive(Debug, Clone, Copy)]
pub struct PolicyBackendStatus {
    pub external_attached: u8,
    pub reserved: [u8; 3],
    pub generation: u32,
}

/// A policy rule: the subject it applies to, its effect and how long it
/// lives.
#[derive(Debug, Clone, Copy, PartialEq, Eq, Structural)]
pub struct PolicyRule {
    pub subject: u32,
    pub effect: u8,
    pub ttl_ms: u32,
}

} // verus!
