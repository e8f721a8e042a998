[package]
name = "diem_block_executor"
version = "0.1.0"
edition = "2021"
publish = false

[dependencies]
prometheus = { version = "0.13", default-features = false }
once_cell = "1"
anyhow = "1"
futures = "0.3"
tokio = { version = "1", features = ["rt-multi-thread"] }
