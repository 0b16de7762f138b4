[package]
name = "bucket_stream"
version = "0.1.0"
edition = "2021"
publish = false

[dependencies]
stellar-xdr = { version = "22", default-features = false, features = ["std", "curr", "base64"] }
rayon = "1"
indicatif = { version = "0.17", features = ["rayon"] }
anyhow = "1"
async-trait = "0.1"
clap = { version = "4", features = ["derive"] }
env_logger = "*"
jsonrpsee = { version = "*", features = ["server", "macros"] }
log = "0.4"
reqwest = { version = "*", features = ["json"] }
serde = { version = "1", features = ["derive"] }
serde_json = "1"
tokio = { version = "1", features = ["full"] }
url = "2"
