[package]
name = "raft_archive"
version = "0.1.0"
edition = "2021"
publish = false

[dependencies]
anyerror = "0.1"
chrono = { version = "0.4", default-features = false, features = ["std"] }
rkyv = "0.8"
serde = { version = "1", features = ["derive"] }

[dev-dependencies]
serde_json = "1"
