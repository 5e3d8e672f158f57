[package]
name = "clock_offset"
version = "0.1.0"
edition = "2021"
publish = false

[dependencies]
anyhow = "1"
clap = { version = "4", features = ["derive"] }
nix = { version = "0.29", features = ["time"] }
tokio = { version = "1", features = ["macros", "net", "rt-multi-thread", "time"] }
