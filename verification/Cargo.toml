[package]
name = "bep_publish"
version = "0.1.0"
edition = "2021"
publish = false

[dependencies]
axum = "*"
bytes = "*"
prost = "*"
prost-types = "*"
tokio = { version = "*", features = ["rt-multi-thread", "sync", "macros", "net"] }
tokio-stream = "*"
tonic = "*"
