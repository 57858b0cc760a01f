[package]
name = "axum_codec"
version = "0.1.0"
edition = "2021"
publish = false

[dependencies]
axum = "=0.8.9"
mime = "=0.3.17"
serde = { version = "=1.0.229", features = ["derive"] }
serde_json = "=1.0.151"
rmp-serde = "=1.3.1"
ciborium = "=0.2.2"
serde_yaml = "=0.9.34"
toml = "=1.1.7"
bincode = "=2.0.1"
bitcode = "=0.6.9"
thiserror = "=2.0.21"
validator = { version = "=0.21.0", features = ["derive"] }
syn = { version = "=2.0.119", features = ["full"] }
quote = "=1.0.47"
proc-macro2 = "=1.0.107"
