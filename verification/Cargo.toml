[package]
name = "agnes-studio"
version = "0.1.0"
edition = "2021"
publish = false

[dependencies]
base64 = "0.22"
dirs = "*"
futures-util = "0.3"
image = { version = "0.25", default-features = false, features = ["png", "jpeg", "webp", "bmp"] }
pulldown-cmark = { version = "*", default-features = false, features = ["html"] }
reqwest = { version = "0.12", features = ["json", "stream"] }
rfd = "*"
serde = { version = "1", features = ["derive"] }
serde_json = "1"
tokio = { version = "1", features = ["rt-multi-thread", "macros", "time", "fs", "io-util"] }
