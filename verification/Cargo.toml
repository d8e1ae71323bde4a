[package]
name = "even-host"
version = "0.1.0"
edition = "2021"
publish = false

[dependencies]
alloy-primitives = { version = "0.5", features = ["serde"] }
anyhow = "1"
bincode = "1.3"
bonsai-sdk = "0.5"
bytemuck = "1"
clap = { version = "4", features = ["derive"] }
env_logger = "0.10"
hex = "0.4"
k256 = "0.13"
risc0-zkvm = { version = "0.19", default-features = false, features = ["std"] }
tokio = { version = "1", features = ["macros", "rt-multi-thread"] }

[dev-dependencies]
alloy-sol-types = "0.5"
