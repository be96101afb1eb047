[package]
name = "stream_loadgen"
version = "0.1.0"
edition = "2021"
publish = false

[dependencies]
anyhow = "1"
axum = "0.6"
chrono = { version = "0.4", default-features = false, features = ["clock"] }
deadpool-lapin = { version = "*", features = ["rt_tokio_1"] }
lapin = "2"
lipsum = "0.9"
rand = "0.8"
serde = { version = "1", features = ["derive"] }
tokio = { version = "1", features = ["macros", "rt-multi-thread", "time"] }
uuid = { version = "1", features = ["v4"] }
