pub mod kconsole;
pub mod vt;

pub use kconsole::{FixedBuf, FmtError, KConsole};
pub use vt::ConsoleVT;
