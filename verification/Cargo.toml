[package]
name = "detection_server"
version = "0.1.0"
edition = "2021"
publish = false

[dependencies]
image = "*"
hyper = { version = "0.14", features = ["server", "http1", "tcp"] }
tokio = { version = "*", features = ["macros", "rt-multi-thread", "net"] }
serde = { version = "*", features = ["derive"] }
serde_json = "*"
clap = "*"
tensorflow = "*"
