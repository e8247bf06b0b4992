[package]
name = "nobject-rs"
version = "0.1.0"
edition = "2021"
publish = false

[dependencies]
derive_more = { version = "1", features = ["constructor", "from", "into"] }
log = "0.4"
thiserror = "2"
