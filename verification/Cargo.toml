[package]
name = "switch_relay"
version = "0.1.0"
edition = "2021"
publish = false

[dependencies]
serde = { version = "=1.0.229", features = ["derive"] }
thrussh = "=0.49.0"
thrussh-keys = "=0.44.0"
tokio = { version = "=1.54.1", features = ["full"] }
