[package]
name = "cfd_protocol"
version = "0.1.0"
edition = "2021"
publish = false

[dependencies]
bitcoin = "=0.27.1"
miniscript = "=6.1.0"
secp256k1-zkp = "=0.5.0"
secp256k1 = { version = "=0.20.3", features = ["global-context-less-secure"] }
secp256k1-sys = "=0.4.1"
rust_decimal = "=1.43.0"
anyhow = "=1.0.104"
serde = { version = "=1.0.229", features = ["derive"] }
serde_json = "=1.0.154"
tokio = { version = "=1.54.1", features = ["sync", "net", "rt", "macros", "io-util"] }
tokio-util = { version = "=0.7.20", features = ["codec"] }
futures = "=0.3.34"
rand = "=0.8.8"
bdk = { version = "0.12", default-features = false }
clap = { version = "3", features = ["derive"] }

[dev-dependencies]
rand_chacha = "=0.3.1"
