[package]
name = "picarus"
version = "0.1.0"
edition = "2021"
publish = false

[dependencies]
encoding_rs = "*"
indexmap = "*"
anyhow = "*"
zip = { version = "*", default-features = false, features = ["deflate"] }
fluent = "*"
unic-langid = "*"
serde = { version = "*", features = ["derive"] }
toml = "*"
sys-locale = "*"
tracing = "*"
tracing-subscriber = "*"
