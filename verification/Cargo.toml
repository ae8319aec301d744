[package]
name = "debug_session"
version = "0.1.0"
edition = "2021"
publish = false

[dependencies]
base64 = "0.13"
fuzzy-matcher = "0.3"
futures = "0.3"
parse_int = "0.6"
serde_json = "1"
tokio = { version = "1", features = ["fs", "io-util", "macros", "rt", "sync"] }
