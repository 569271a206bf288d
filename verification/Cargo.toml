[package]
name = "mock_traffic"
version = "0.1.0"
edition = "2021"
publish = false

[dependencies]
tokio = { version = "1", features = ["sync", "time", "rt-multi-thread", "macros"] }
clap = { version = "4", features = ["derive"] }

[dev-dependencies]
lz4_flex = "0.11"
