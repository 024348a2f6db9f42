[package]
name = "wayland-remote"
version = "0.1.0"
edition = "2021"
publish = false

[dependencies]
lz4_flex = "0.11"
bytes = "1"
sha2 = "0.10"
thiserror = "2"
tokio = { version = "1", features = ["rt", "net", "io-util", "sync", "time"] }
image = { version = "0.25", default-features = false, features = ["png"] }
