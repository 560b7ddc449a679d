[package]
name = "essential_wallet"
version = "0.1.0"
edition = "2021"
publish = false

[dependencies]
anyhow = "*"
base64 = "=0.23.1"
clap = { version = "*", features = ["derive"] }
dirs = "*"
ed25519-dalek = "=3.0.0"
essential-hash = "=0.10.0"
essential-sign = "=0.12.0"
essential-types = "=0.8.0"
hex = "=0.4.3"
postcard = { version = "*", features = ["alloc"] }
rand = "*"
rpassword = "*"
rusqlite = { version = "*", features = ["bundled"] }
secp256k1 = { version = "=0.30.0", features = ["rand", "recovery"] }
serde = { version = "*", features = ["derive"] }
serde_json = "=1.0.151"
sha2 = "=0.10.9"
tempfile = "*"
