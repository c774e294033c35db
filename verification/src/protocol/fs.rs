//! File system service: operation labels.

use vstd::prelude::*;

verus! {

pub const OPEN: usize = 1;
pub const MKDIR: usize = 2;
pub const UNLINK: usize = 3;
pub const RENAME: usize = 4;
pub const LINK: usize = 5;
pub const STAT_PATH: usize = 6;
pub const LSTAT_PATH: usize = 7;
pub const READLINK_PATH: usize = 8;
pub const MOUNT: usize = 9;
pub const UNMOUNT: usize = 10;
pub const CREATE_VIEW: usize = 11;
pub const SET_VIEW: usize = 12;
pub const READ_SYNC: usize = 13;
pub const WRITE_SYNC: usize = 14;
pub const CLOSE: usize = 15;
pub const STAT: usize = 16;
pub const GETDENTS: usize = 17;
pub const SEEK: usize = 18;
pub const SYNC: usize = 19;
pub const TRUNCATE: usize = 20;
pub const POLL: usize = 21;
pub const IOCTL_EX: usize = 22;
pub const SETUP_IOURING: usize = 23;
pub const PROCESS_IOURING: usize = 24;
pub const MAP_PAGE: usize = 25;
pub const UNMAP_PAGE: usize = 26;

} // verus!
