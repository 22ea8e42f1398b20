[package]
name = "control_plane"
version = "0.1.0"
edition = "2021"
publish = false

[dependencies]
http = "*"
serde = { version = "*", features = ["derive"] }
serde_json = "*"
serde_tuple = "*"
clap = { version = "*", features = ["derive"] }
prettytable-rs = "*"
tokio = { version = "*", features = ["time", "rt", "macros"] }
tracing = "*"
uuid = { version = "*", features = ["v4"] }
async-trait = "*"
