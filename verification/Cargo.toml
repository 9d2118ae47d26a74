[package]
name = "rpc_server"
version = "0.1.0"
edition = "2021"
publish = false

[dependencies]
anyhow = "1"
bcs = "=0.1.6"
ntex = { version = "2", features = ["tokio"] }
num_cpus = "=1.17.0"
rand = "=0.7.3"
rayon = "1"
rocksdb = { version = "=0.22.0", default-features = false }
serde = { version = "1", features = ["derive"] }
thiserror = "1"
tokio = { version = "1", features = ["rt", "rt-multi-thread"] }
