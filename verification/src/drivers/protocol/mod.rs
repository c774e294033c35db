pub mod fb;
pub mod uart;
