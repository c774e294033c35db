//! Network service: operation labels.

use vstd::prelude::*;

verus! {

pub const SOCKET: usize = 1;
pub const BIND: usize = 2;
pub const LISTEN: usize = 3;
pub const ACCEPT: usize = 4;
pub const CONNECT: usize = 5;
pub const SEND: usize = 6;
pub const RECV: usize = 7;
pub const CLOSE: usize = 8;
pub const GET_SOCKNAME: usize = 9;
pub const GET_PEERNAME: usize = 10;
pub const SET_SOCKOPT: usize = 11;
pub const GET_SOCKOPT: usize = 12;
pub const SETUP_IOURING: usize = 13;
pub const PROCESS_IOURING: usize = 14;

} // verus!
