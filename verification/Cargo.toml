[package]
name = "matroskin"
version = "0.1.0"
edition = "2021"
publish = false

[dependencies]
aes = "*"
base64_light = "*"
cipher = "*"
hex = "*"
serde = { version = "*", features = ["derive"] }
serde_json = "*"
sha256 = "*"
thiserror = "*"
tokio = { version = "*", features = ["rt-multi-thread", "net", "sync", "io-util", "macros", "time"] }
tracing = "*"
tracing-subscriber = "*"
zeroize = { version = "*", features = ["derive"] }
