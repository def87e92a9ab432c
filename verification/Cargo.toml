[package]
name = "peer_transfer"
version = "0.1.0"
edition = "2021"
publish = false

[dependencies]
anyhow = "1"
clap = { version = "4", features = ["derive"] }
clio = { version = "0.3", features = ["clap-parse"] }
iroh-base = { version = "0.28", features = ["key"] }
tokio = { version = "1", features = ["macros", "rt-multi-thread", "signal", "time"] }
