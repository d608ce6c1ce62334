[package]
name = "wire_sentinel"
version = "0.1.0"
edition = "2021"
publish = false

[dependencies]
log = "*"
fern = "*"
humantime = "*"
serde = { version = "*", features = ["derive"] }
toml = "*"
ureq = "*"
