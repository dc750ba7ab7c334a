[package]
name = "reseam_patcher"
version = "0.1.0"
edition = "2021"
publish = false

[dependencies]
rustc-hash = "2"
sha2 = "0.10"
hex = "0.4"
ed25519-dalek = "2"
zip = { version = "2", default-features = false, features = ["deflate"] }
toml = "0.8"
serde = { version = "1", features = ["derive"] }
thiserror = "1"
tempfile = "3"
