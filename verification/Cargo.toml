[package]
name = "holochain_runner"
version = "0.1.0"
edition = "2021"
publish = false

[dependencies]
anyhow = "1.0"
holo_hash = { version = "=0.5.6", default-features = false, features = ["encoding", "hashing", "kitsune2"] }
kitsune2_api = "=0.1.16"
kitsune2_core = "=0.1.16"
log = "0.4"
rand = "=0.8.8"
serde = { version = "1.0", features = ["derive"] }
tokio = { version = "1", features = ["rt", "time"] }
url = "=2.5.8"
