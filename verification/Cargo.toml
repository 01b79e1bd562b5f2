[package]
name = "async_sqlite"
version = "0.1.0"
edition = "2021"
publish = false

[dependencies]
r2d2 = "0.8"
r2d2_sqlite = { version = "0.25", features = ["bundled"] }
rusqlite = { version = "0.32", features = ["bundled"] }
crossbeam = "0.8"
tokio = { version = "1", features = ["rt", "rt-multi-thread"] }
async-std = "1"
smol = "2"
thiserror = "1"
