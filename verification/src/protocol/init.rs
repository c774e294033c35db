//! Init service: operation labels.

use vstd::prelude::*;

verus! {

pub const START: usize = 1;
pub const STOP: usize = 2;
pub const RESTART: usize = 3;
pub const RELOAD: usize = 4;
pub const QUERY: usize = 5;
pub const REPORT: usize = 6;
pub const LIST: usize = 7;

/// Lifecycle state of a service, by its wire code.
#[derive(Debug, Clone, Copy, PartialEq, Eq, Structural)]
pub struct ServiceState(pub usize);

} // verus!
