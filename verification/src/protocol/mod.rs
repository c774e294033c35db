//! Protocol identifiers and, per protocol, operation labels and wire types.

pub mod acpi;
pub mod auth;
pub mod block;
pub mod devfb;
pub mod device;
pub mod devuart;
pub mod fs;
pub mod generic;
pub mod init;
pub mod input;
pub mod net;
pub mod network;
pub mod pci;
pub mod process;
pub mod resource;
pub mod terminal;
pub mod thermal;
pub mod time;
pub mod timer;
pub mod volume;

use vstd::prelude::*;

verus! {

pub const GENERIC_PROTO: usize = 0x100;
pub const RESOURCE_PROTO: usize = 0x101;
pub const PROCESS_PROTO: usize = 0x102;
pub const INIT_PROTO: usize = 0x103;
pub const FS_PROTO: usize = 0x104;
pub const AUTH_PROTO: usize = 0x105;
pub const TIME_PROTO: usize = 0x106;
pub const NETWORK_PROTO: usize = 0x107;
pub const TERMINAL_PROTO: usize = 0x108;
pub const VOLUME_PROTO: usize = 0x109;
pub const DEVICE_PROTO: usize = 0x200;
pub const BLOCK_PROTO: usize = 0x201;
pub const INPUT_PROTO: usize = 0x202;
pub const NET_PROTO: usize = 0x203;
pub const PCI_PROTO: usize = 0x204;
pub const DEV_FB_PROTO: usize = 0x205;
pub const DEV_UART_PROTO: usize = 0x206;
pub const UART_PROTO: usize = 0x401;
pub const TIMER_PROTO: usize = 0x402;
pub const ACPI_PROTO: usize = 0x403;
pub const THERMAL_PROTO: usize = 0x404;
pub const DRIVER_INPUT_PROTO: usize = 0x405;
pub const FB_PROTO: usize = 0x409;

} // verus!
