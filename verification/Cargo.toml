[package]
name = "alpine_protocol"
version = "0.1.0"
edition = "2021"
publish = false

[dependencies]
chacha20poly1305 = "0.10"
hkdf = "0.12"
sha2 = "0.10"
x25519-dalek = { version = "2", features = ["static_secrets"] }
ed25519-dalek = { version = "2", features = ["pkcs8", "pem", "rand_core"] }
rand = "0.8"
uuid = { version = "1", features = ["v4", "serde"] }
rustls-pemfile = "2"
serde = { version = "1", features = ["derive"] }
serde_cbor = "0.11"
serde_json = "1"
tokio = { version = "1", features = ["net", "time", "sync", "rt", "macros"] }
async-trait = "0.1"
thiserror = "1"
tracing = "0.1"
