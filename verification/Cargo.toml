[package]
name = "restricted_marker_transfer"
version = "0.3.1"
edition = "2021"
publish = false

[dependencies]
uuid = "1"
semver = "1"
cosmwasm-std = "1.5"
provwasm-std = "1.2"
cw2 = "1"
cw-storage-plus = "1"
schemars = "0.8"
serde = { version = "1.0", features = ["derive"] }
thiserror = "1"
