pub mod resource;

pub use resource::ResourceClient;
pub mod volume;
pub mod auth;
pub mod device;
pub mod drivers;
pub mod fs;
pub mod generic;
pub mod init;
pub mod process;
pub mod time;
pub mod network;
pub mod terminal;
