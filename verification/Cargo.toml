[package]
name = "presage"
version = "0.8.0"
edition = "2021"
publish = false

[dependencies]
base64 = "0.22"
bytes = "1"
chrono = "0.4"
derive_more = { version = "2", features = ["debug"] }
futures = "0.3"
hex = "0.4"
prost = "0.14"
rand = "0.9"
serde = { version = "1", features = ["derive"] }
serde_json = "1"
sha2 = "0.10"
sqlx = { version = "0.8", default-features = false, features = ["runtime-tokio", "sqlite", "macros", "migrate"] }
thiserror = "2"
tokio = { version = "1", features = ["fs", "io-util", "rt", "sync", "time", "macros"] }
tracing = "0.1"
unicode-normalization = "0.1"
unicode-segmentation = "1"
url = "2"
uuid = "1"
