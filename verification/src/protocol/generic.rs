//! Generic service: operation labels.

use vstd::prelude::*;

verus! {

pub const PING: usize = 1;
pub const SHARE_MEMORY: usize = 2;
pub const SEND_MESSAGE: usize = 3;
pub const NOTIFY: usize = 4;

} // verus!
