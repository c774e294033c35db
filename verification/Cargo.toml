[package]
name = "glenda"
version = "0.1.0"
edition = "2021"
publish = false

[dependencies]
spin = "0.9"
buddy_system_allocator = "0.10"
postcard = { version = "1", features = ["alloc"] }
serde = { version = "1", features = ["derive"] }
num_enum = "0.7"
