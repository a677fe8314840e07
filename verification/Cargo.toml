[package]
name = "secret_manager_lib"
version = "0.1.0"
edition = "2021"
publish = false

[dependencies]
argon2 = "0.5"
ring = "0.17"
hex = "0.4"
uuid = { version = "1", features = ["v4"] }
zeroize = "1"
serde = { version = "1", features = ["derive"] }
serde_json = "1"
thiserror = "1"
rusqlite = { version = "0.32", features = ["bundled-sqlcipher-vendored-openssl"] }
