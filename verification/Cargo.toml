[package]
name = "gamma-rt-engine"
version = "0.1.0"
edition = "2021"
publish = false

[dependencies]
anyhow = "=1.0.104"
bytemuck = { version = "=1.25.2", features = ["derive"] }
clap = { version = "=4.6.7", features = ["derive"] }
env_logger = "=0.11.11"
futures-util = "=0.3.34"
glam = "0.30"
image = { version = "=0.25.10", default-features = false, features = ["png"] }
log = "=0.4.35"
metal = "=0.33.0"
objc = "=0.2.7"
serde = { version = "=1.0.229", features = ["derive"] }
serde_json = "=1.0.154"
tokio = { version = "=1.54.1", features = ["macros", "net", "rt-multi-thread", "time"] }
tokio-tungstenite = "=0.30.0"
