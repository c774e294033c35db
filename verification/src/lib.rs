use vstd::prelude::*;

pub mod align;
pub mod cap;
pub mod console;
pub mod encoding;
pub mod error;
pub mod heap;
pub mod ipc;
pub mod shm;
pub mod uring;
pub mod protocol;
pub mod client;
pub mod bytes;
pub mod wire;
pub mod drivers;
