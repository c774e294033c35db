pub mod input;
pub mod timer;
